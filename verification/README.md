# mml

Drafts for the Emacs MIME message Meta Language (MML): the templates a new
message, a reply or a forward starts from, the merged account they are made
with, and the decisions of the `mml` command line. The library under `src/`
is written and proved with Verus; `app/` is the command-line program around
it.

## Layout

- `src/template/`: the draft builders (`compose`, `new`, `reply`,
  `forward`), the recipients of a reply (`address`), the quoted and
  forwarded threads (`thread`), and the rendering of header lines, body and
  attachment markup (`render`, `types`).
- `src/cli/`: the configuration (`config`), the merged account (`account`),
  the arguments of each command and what they decide: which account values
  the command line overrides, what a draft is built from, which actions the
  editing loop offers and what it does next.
- `src/interpreter.rs`, `src/mml/`: the options of the MIME → MML
  interpretation and the `compile` / `interpret` arguments.
- `src/compiler/`: what each part of an MML body becomes (unescaped text,
  multipart type, content type, `name` attribute, body, transfer encoding,
  disposition), nested multiparts compiled in order, and the
  `mail-builder` MIME parts built from them, with a model of what each
  holds.
- `src/mime.rs`, `src/pattern.rs`: the calls into `mail-parser` and `regex`,
  with the contracts the proofs rest on; the no-reply pattern and the
  `Re:`/`Fwd:` subject patterns are stated in full.
- `src/text.rs`: character-level text operations (`lines`, `replace`,
  `trim`, …) and their lemmas.

The laws of the library are public proof functions named `lemma_*`: merging
accounts, the command line as the top layer of the merge, the recipients of
a reply, CRLF normalisation, unescaping, trimming subject prefixes, and
the end of the editing loop.
