//! CRLF normalisation: RFC 5322 expects `\r\n` line endings, but standard
//! input and inline arguments usually come with bare `\n`.

use vstd::prelude::*;

use crate::text::{
    chars_of, extend_str, lemma_lines_facts, lemma_lines_no_cr, lemma_remove_cr_free,
    lemma_terminate_all_push, lines, lines_of, remove_carriage_returns, remove_cr, replace_all,
    replace_chars, string_of, terminate_all,
};

verus! {

/// The escape sequence `\r` written out (backslash, `r`).
pub open spec fn escaped_cr() -> Seq<char> {
    seq!['\\', 'r']
}

/// The escape sequence `\n` written out (backslash, `n`).
pub open spec fn escaped_lf() -> Seq<char> {
    seq!['\\', 'n']
}

/// `input` with the written-out `\r` sequences removed and the
/// written-out `\n` sequences turned into line feeds.
pub open spec fn unescaped(input: Seq<char>) -> Seq<char> {
    replace_all(replace_all(input, escaped_cr(), seq![]), escaped_lf(), seq!['\n'])
}

/// `s` with its written-out `\n` sequences turned into line feeds.
pub open spec fn unescaped_newlines(s: Seq<char>) -> Seq<char> {
    replace_all(s, escaped_lf(), seq!['\n'])
}

/// Turns the written-out `\n` sequences of `s` into line feeds, as a
/// headline given on the command line may hold them.
pub fn unescape_newlines(s: &str) -> (r: String)
    ensures
        r@ == unescaped_newlines(s@),
{
    let lf = vec!['\\', 'n'];
    let newline = vec!['\n'];
    assert(lf@ =~= escaped_lf());
    assert(newline@ =~= seq!['\n']);
    let t = replace_chars(&chars_of(s), &lf, &newline);
    string_of(&t)
}

/// Each line ended with CRLF.
pub open spec fn crlf_terminated(ls: Seq<Seq<char>>) -> Seq<char> {
    terminate_all(ls, seq!['\r', '\n'])
}

/// Each line of `s`, ended with CRLF.
fn crlf_lines(s: &[char]) -> (r: String)
    ensures
        r@ == crlf_terminated(lines(s@)),
{
    let ls = lines_of(s);
    let n = ls.len();
    let ghost lv = lines(s@);
    let mut out: Vec<char> = Vec::new();
    for i in 0..n
        invariant
            n == ls@.len(),
            lv == lines(s@),
            n == lv.len(),
            forall|k: int| 0 <= k < ls@.len() ==> #[trigger] ls@[k]@ == lv[k],
            out@ == crlf_terminated(lv.take(i as int)),
    {
        proof {
            lemma_terminate_all_push(lv.take(i as int), seq!['\r', '\n'], lv[i as int]);
            assert(lv.take(i + 1) =~= lv.take(i as int).push(lv[i as int]));
        }
        crate::text::extend_chars(&mut out, &ls[i]);
        out.push('\r');
        out.push('\n');
        assert(out@ =~= crlf_terminated(lv.take(i + 1)));
    }
    assert(lv.take(n as int) =~= lv);
    string_of(&out)
}

/// What [`format_str`] gives for `input`: the written-out `\r`
/// sequences dropped, the written-out `\n` sequences turned into line
/// feeds, every carriage return stripped, then each line ended with CRLF.
pub open spec fn formatted(input: Seq<char>) -> Seq<char> {
    crlf_terminated(lines(remove_cr(unescaped(input))))
}

/// Normalises an inline argument into CRLF-terminated lines, as a MIME
/// parser expects them: the written-out `\r` sequences are dropped, the
/// written-out `\n` sequences become line feeds, carriage returns are
/// stripped, then each line (as `str::lines` splits them) is ended with
/// CRLF.
pub fn format_str(input: &str) -> (r: String)
    ensures
        r@ == formatted(input@),
{
    let s = chars_of(input);
    let cr = vec!['\\', 'r'];
    let lf = vec!['\\', 'n'];
    let nothing: Vec<char> = Vec::new();
    let newline = vec!['\n'];
    assert(cr@ =~= escaped_cr());
    assert(lf@ =~= escaped_lf());
    assert(nothing@ =~= Seq::<char>::empty());
    assert(newline@ =~= seq!['\n']);
    let a = replace_chars(&s, &cr, &nothing);
    let b = replace_chars(&a, &lf, &newline);
    let c = remove_carriage_returns(&b);
    crlf_lines(&c)
}

/// Lines read from standard input, each ended with CRLF (what
/// `format_stdin` writes for the lines it reads).
pub fn format_lines(lines: &Vec<String>) -> (r: String)
    ensures
        r@ == crlf_terminated(lines.deep_view()),
{
    let n = lines.len();
    let ghost lv = lines.deep_view();
    let mut out: Vec<char> = Vec::new();
    for i in 0..n
        invariant
            n == lines@.len(),
            lv == lines.deep_view(),
            out@ == crlf_terminated(lv.take(i as int)),
    {
        proof {
            lemma_terminate_all_push(lv.take(i as int), seq!['\r', '\n'], lv[i as int]);
            assert(lv.take(i + 1) =~= lv.take(i as int).push(lv[i as int]));
        }
        extend_str(&mut out, lines[i].as_str());
        out.push('\r');
        out.push('\n');
        assert(out@ =~= crlf_terminated(lv.take(i + 1)));
    }
    assert(lv.take(n as int) =~= lv);
    string_of(&out)
}

/// Every line feed of `s` follows a carriage return.
pub open spec fn no_bare_lf(s: Seq<char>) -> bool {
    forall|i: int| 0 <= i < s.len() && #[trigger] s[i] == '\n' ==> i > 0 && s[i - 1] == '\r'
}

/// Lines that hold no line feed, each ended with CRLF, hold no bare line
/// feed, and end with CRLF when there is at least one.
proof fn lemma_crlf_terminated(ls: Seq<Seq<char>>)
    requires
        forall|k: int, j: int| 0 <= k < ls.len() && 0 <= j < ls[k].len() ==> ls[k][j] != '\n',
    ensures
        no_bare_lf(crlf_terminated(ls)),
        ls.len() > 0 ==> crlf_terminated(ls).len() >= 2 && crlf_terminated(ls).last() == '\n'
            && crlf_terminated(ls)[crlf_terminated(ls).len() - 2] == '\r',
    decreases ls.len(),
{
    if ls.len() > 0 {
        let init = ls.drop_last();
        lemma_crlf_terminated(init);
        let a = crlf_terminated(init);
        let l = ls.last();
        let t = crlf_terminated(ls);
        assert(t == a + l + seq!['\r', '\n']);
        assert forall|i: int| 0 <= i < t.len() && #[trigger] t[i] == '\n' implies i > 0 && t[i - 1] == '\r' by {
            if i < a.len() {
                assert(t[i] == a[i]);
                assert(t[i - 1] == a[i - 1]);
            } else if i < a.len() + l.len() {
                assert(t[i] == l[i - a.len()]);
                assert(ls[ls.len() - 1] == l);
            } else if i == a.len() + l.len() {
                assert(t[i] == '\r');
            } else {
                assert(t[i - 1] == '\r');
            }
        }
    }
}

/// Every carriage return of `s` is followed by a line feed.
pub open spec fn no_lone_cr(s: Seq<char>) -> bool {
    forall|i: int| 0 <= i < s.len() && #[trigger] s[i] == '\r' ==> i + 1 < s.len() && s[i + 1] == '\n'
}

/// Lines that hold no carriage return, each ended with CRLF, hold carriage
/// returns only in their line ends.
proof fn lemma_crlf_terminated_cr(ls: Seq<Seq<char>>)
    requires
        forall|k: int, j: int| 0 <= k < ls.len() && 0 <= j < ls[k].len() ==> ls[k][j] != '\r',
    ensures
        no_lone_cr(crlf_terminated(ls)),
    decreases ls.len(),
{
    if ls.len() > 0 {
        let init = ls.drop_last();
        lemma_crlf_terminated_cr(init);
        let a = crlf_terminated(init);
        let l = ls.last();
        let t = crlf_terminated(ls);
        assert(t == a + l + seq!['\r', '\n']);
        assert forall|i: int| 0 <= i < t.len() && #[trigger] t[i] == '\r' implies i + 1 < t.len() && t[i + 1] == '\n' by {
            if i < a.len() {
                assert(t[i] == a[i]);
                assert(t[i + 1] == a[i + 1]);
            } else if i < a.len() + l.len() {
                assert(t[i] == l[i - a.len()]);
                assert(ls[ls.len() - 1] == l);
            } else {
                assert(i == a.len() + l.len());
            }
        }
    }
}

/// What [`format_str`] gives is CRLF-normalised: every line feed follows
/// a carriage return, every carriage return is followed by a line feed,
/// and the text ends with CRLF unless it is empty.
pub proof fn lemma_format_str_crlf(input: Seq<char>)
    ensures
        no_bare_lf(formatted(input)),
        no_lone_cr(formatted(input)),
        formatted(input).len() > 0 ==> ({
            let r = formatted(input);
            r.last() == '\n' && r[r.len() - 2] == '\r'
        }),
{
    let t = remove_cr(unescaped(input));
    lemma_remove_cr_free(unescaped(input));
    lemma_lines_facts(t);
    lemma_lines_no_cr(t);
    lemma_crlf_terminated(lines(t));
    lemma_crlf_terminated_cr(lines(t));
}

/// What [`format_lines`] gives for lines that hold no line feed (as
/// lines read from standard input) is CRLF-normalised in the same way.
pub proof fn lemma_format_lines_crlf(ls: Seq<Seq<char>>)
    requires
        forall|k: int, j: int| 0 <= k < ls.len() && 0 <= j < ls[k].len() ==> ls[k][j] != '\n',
    ensures
        no_bare_lf(crlf_terminated(ls)),
        ls.len() > 0 ==> crlf_terminated(ls).last() == '\n' && crlf_terminated(ls)[crlf_terminated(ls).len() - 2] == '\r',
{
    lemma_crlf_terminated(ls);
}

} // verus!
