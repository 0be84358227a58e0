//! Argument groups shared by the editor-driven commands and their
//! `template` counterparts: raw `KEY:VAL` headers, and the source message.

use vstd::prelude::*;

use crate::cli::stdin::{escaped_cr, escaped_lf};
use crate::text::{
    chars_of, extend_chars, extend_str, join, lemma_join_push, replace_all, replace_chars,
    string_of, trim, trim_chars,
};

verus! {

/// Custom headers given as `-H KEY:VAL`, repeatable.
pub struct HeaderRawArgs {
    pub raw: Vec<(String, String)>,
}

/// The source message: a path to a file, raw message contents, or
/// nothing when it is piped on standard input.
pub struct MessageArg {
    pub raw: Vec<String>,
}

/// Index of the first `c` in `s`, or `s.len()` when there is none.
pub open spec fn index_of(s: Seq<char>, c: char) -> int
    decreases s.len(),
{
    if s.len() == 0 {
        0
    } else if s[0] == c {
        0
    } else {
        1 + index_of(s.skip(1), c)
    }
}

proof fn lemma_index_of(s: Seq<char>, c: char, k: int)
    requires
        0 <= k <= s.len(),
        forall|j: int| 0 <= j < k ==> s[j] != c,
        k == s.len() || s[k] == c,
    ensures
        index_of(s, c) == k,
    decreases s.len(),
{
    if s.len() > 0 && k > 0 {
        lemma_index_of(s.skip(1), c, k - 1);
    }
}

/// The text `format!("{:?}", s)` writes for a string: quoted, with its
/// special characters escaped.
pub uninterp spec fn debug_text(s: Seq<char>) -> Seq<char>;

/// Writes `s` with `format!("{:?}", s)` (the `Debug` form of a string).
/// The contract names the result and claims nothing more.
#[verifier::external_body]
pub(crate) fn debug_quote(s: &str) -> (r: String)
    ensures
        r@ == debug_text(s@),
{
    format!("{s:?}")
}

/// What [`raw_header_parser`] gives for `raw`.
pub open spec fn parsed_raw_header(raw: Seq<char>) -> Result<(Seq<char>, Seq<char>), Seq<char>> {
    let i = index_of(raw, ':');
    if i < raw.len() {
        Ok((trim(raw.take(i)), trim(raw.skip(i + 1))))
    } else {
        Err("cannot parse raw header "@ + debug_text(raw))
    }
}

/// Parses a `KEY:VAL` header: splits at the first colon and trims both
/// sides. Without a colon, the error names the value.
pub fn raw_header_parser(raw_header: &str) -> (r: Result<(String, String), String>)
    ensures
        match (r, parsed_raw_header(raw_header@)) {
            (Ok((k, v)), Ok((ks, vs))) => k@ == ks && v@ == vs,
            (Err(e), Err(es)) => e@ == es,
            _ => false,
        },
{
    let s = chars_of(raw_header);
    let n = s.len();
    for i in 0..n
        invariant
            n == s@.len(),
            s@ == raw_header@,
            forall|j: int| 0 <= j < i ==> s@[j] != ':',
    {
        if s[i] == ':' {
            proof {
                lemma_index_of(s@, ':', i as int);
            }
            let mut key: Vec<char> = Vec::new();
            for k in 0..i
                invariant
                    i < n,
                    n == s@.len(),
                    key@ == s@.take(k as int),
            {
                key.push(s[k]);
                assert(s@.take(k + 1) =~= s@.take(k as int).push(s@[k as int]));
            }
            let mut val: Vec<char> = Vec::new();
            for k in i + 1..n
                invariant
                    i < n,
                    n == s@.len(),
                    val@ == s@.subrange(i + 1, k as int),
            {
                val.push(s[k]);
                assert(s@.subrange(i + 1, k + 1) =~= s@.subrange(i + 1, k as int).push(
                    s@[k as int],
                ));
            }
            assert(val@ =~= s@.skip(i + 1));
            let key = trim_chars(&key);
            let val = trim_chars(&val);
            return Ok((string_of(&key), string_of(&val)));
        }
    }
    proof {
        lemma_index_of(s@, ':', n as int);
    }
    let mut e = chars_of("cannot parse raw header ");
    let quoted = debug_quote(raw_header);
    extend_str(&mut e, quoted.as_str());
    Err(string_of(&e))
}

/// `parts` separated by `sep`.
fn join_strings(parts: &Vec<String>, sep: &[char]) -> (r: Vec<char>)
    ensures
        r@ == join(parts.deep_view(), sep@),
{
    let n = parts.len();
    let ghost pv = parts.deep_view();
    let mut out: Vec<char> = Vec::new();
    for i in 0..n
        invariant
            n == parts@.len(),
            pv == parts.deep_view(),
            out@ == join(pv.take(i as int), sep@),
    {
        proof {
            lemma_join_push(pv.take(i as int), sep@, pv[i as int]);
            assert(pv.take(i + 1) =~= pv.take(i as int).push(pv[i as int]));
        }
        if i > 0 {
            extend_chars(&mut out, sep);
        }
        extend_str(&mut out, parts[i].as_str());
        assert(out@ =~= join(pv.take(i + 1), sep@));
    }
    assert(pv.take(n as int) =~= pv);
    out
}

/// Lines read from standard input, joined with CRLF.
pub fn join_lines_crlf(lines: &Vec<String>) -> (r: String)
    ensures
        r@ == join(lines.deep_view(), seq!['\r', '\n']),
{
    let sep = vec!['\r', '\n'];
    assert(sep@ =~= seq!['\r', '\n']);
    let out = join_strings(lines, &sep);
    string_of(&out)
}

impl MessageArg {
    /// The message given on the command line: its words joined with
    /// spaces, the written-out `\r` sequences removed and the written-out
    /// `\n` sequences turned into CRLF.
    pub open spec fn inline_text(&self) -> Seq<char> {
        replace_all(
            replace_all(join(self.raw.deep_view(), seq![' ']), escaped_cr(), seq![]),
            escaped_lf(),
            seq!['\r', '\n'],
        )
    }

    /// The message given on the command line (see
    /// [`MessageArg::inline_text`]), `None` when none is given. Whether it
    /// names a file to read, and reading standard input otherwise, is up
    /// to the caller.
    pub fn inline_message(&self) -> (r: Option<String>)
        ensures
            self.raw@.len() == 0 ==> r is None,
            self.raw@.len() > 0 ==> (r matches Some(m) && m@ == self.inline_text()),
    {
        if self.raw.len() == 0 {
            return None;
        }
        let space = vec![' '];
        assert(space@ =~= seq![' ']);
        let joined = join_strings(&self.raw, &space);
        let cr = vec!['\\', 'r'];
        let lf = vec!['\\', 'n'];
        let nothing: Vec<char> = Vec::new();
        let crlf = vec!['\r', '\n'];
        assert(cr@ =~= escaped_cr());
        assert(lf@ =~= escaped_lf());
        assert(nothing@ =~= Seq::<char>::empty());
        assert(crlf@ =~= seq!['\r', '\n']);
        let a = replace_chars(&joined, &cr, &nothing);
        let b = replace_chars(&a, &lf, &crlf);
        Some(string_of(&b))
    }
}

} // verus!
