//! Regular-expression matching, done by the `regex` crate.

use vstd::prelude::*;

use crate::template::address::NO_REPLY;
use crate::template::forward::FWD_SUBJECT;
use crate::template::reply::RE_SUBJECT;
use crate::text::{is_ws, lemma_nl_index, lemma_nl_index_bounds, lemma_trim_start_len, nl_index, trim_start};

verus! {

/// Whether the regular expression `pattern` (in the syntax of the `regex`
/// crate) matches somewhere in `text`; false when `pattern` does not
/// compile.
pub uninterp spec fn regex_matches(pattern: Seq<char>, text: Seq<char>) -> bool;

/// The text taken by capture group `group` in the leftmost-first match of
/// the regular expression `pattern` in `text`; `None` when `pattern` does
/// not compile, does not match, or the group takes no part in the match.
pub uninterp spec fn regex_group(pattern: Seq<char>, text: Seq<char>, group: nat) -> Option<
    Seq<char>,
>;

/// `c` is the ASCII letter `lower` or its capital. (With the simple case
/// folding the `regex` crate uses, the letters of [`NO_REPLY`] have no
/// other forms.)
pub open spec fn ci(c: char, lower: char) -> bool {
    c == lower || c as int == lower as int - 32
}

/// `s` holds `word` at `i`, in any case.
pub open spec fn word_at(s: Seq<char>, i: int, word: Seq<char>) -> bool {
    &&& 0 <= i
    &&& i + word.len() <= s.len()
    &&& forall|k: int| 0 <= k < word.len() ==> ci(#[trigger] s[i + k], word[k])
}

/// `c` is one of the separators `_`, `-` and `.`.
pub open spec fn is_sep(c: char) -> bool {
    c == '_' || c == '-' || c == '.'
}

/// The pattern [`NO_REPLY`] matches `s` at `i`: `no`, an optional `t`,
/// an optional separator, then `reply`, in any case.
pub open spec fn noreply_match_at(s: Seq<char>, i: int) -> bool {
    let reply = seq!['r', 'e', 'p', 'l', 'y'];
    &&& word_at(s, i, seq!['n', 'o'])
    &&& {
        ||| word_at(s, i + 2, reply)
        ||| (i + 2 < s.len() && is_sep(s[i + 2]) && word_at(s, i + 3, reply))
        ||| (i + 2 < s.len() && ci(s[i + 2], 't') && word_at(s, i + 3, reply))
        ||| (i + 3 < s.len() && ci(s[i + 2], 't') && is_sep(s[i + 3]) && word_at(s, i + 4, reply))
    }
}

/// The pattern [`NO_REPLY`] matches somewhere in `s`.
pub open spec fn noreply_matches(s: Seq<char>) -> bool {
    exists|i: int| #[trigger] noreply_match_at(s, i)
}

/// Compiles `pattern` with `regex::Regex::new` and asks
/// `regex::Regex::is_match` whether it matches in `text`. The contract
/// names the answer as a function of the pattern and the text; for the
/// pattern [`NO_REPLY`] it states the answer (see [`noreply_matches`]),
/// as the crate's documented syntax gives it. Of other patterns it says
/// nothing.
#[verifier::external_body]
pub(crate) fn regex_is_match(pattern: &str, text: &str) -> (r: bool)
    ensures
        r == regex_matches(pattern@, text@),
        pattern@ == NO_REPLY@ ==> r == noreply_matches(text@),
{
    regex::Regex::new(pattern).map_or(false, |re| re.is_match(text))
}

/// `s` with every leading `word:` prefix removed, each in any case and
/// with any whitespace around it: what `(?i:\s*word\s*:\s*)*` takes,
/// greedily, at the start of `s`.
pub open spec fn strip_prefixes(s: Seq<char>, word: Seq<char>) -> Seq<char>
    decreases s.len(),
{
    let t = trim_start(s);
    proof {
        lemma_trim_start_len(s);
    }
    if word_at(t, 0, word) {
        let u = trim_start(t.skip(word.len() as int));
        proof {
            lemma_trim_start_len(t.skip(word.len() as int));
        }
        if u.len() > 0 && u[0] == ':' {
            proof {
                lemma_trim_start_len(u.skip(1));
            }
            strip_prefixes(trim_start(u.skip(1)), word)
        } else {
            s
        }
    } else {
        s
    }
}

/// What group 1 of `(?i:\s*word\s*:\s*)*(.*)` captures in `s`: the
/// text after the leading `word:` prefixes, up to the first line feed.
pub open spec fn subject_rest(s: Seq<char>, word: Seq<char>) -> Seq<char> {
    let t = strip_prefixes(s, word);
    t.take(nl_index(t))
}

/// Stripping prefixes shortens a text or leaves it.
proof fn lemma_strip_len(s: Seq<char>, word: Seq<char>)
    ensures
        strip_prefixes(s, word).len() <= s.len(),
    decreases s.len(),
{
    let t = trim_start(s);
    lemma_trim_start_len(s);
    if word_at(t, 0, word) {
        let u = trim_start(t.skip(word.len() as int));
        lemma_trim_start_len(t.skip(word.len() as int));
        if u.len() > 0 && u[0] == ':' {
            lemma_trim_start_len(u.skip(1));
            lemma_strip_len(trim_start(u.skip(1)), word);
        }
    }
}

/// Stripped text has no prefix left to strip.
proof fn lemma_strip_fixed(s: Seq<char>, word: Seq<char>)
    ensures
        strip_prefixes(strip_prefixes(s, word), word) == strip_prefixes(s, word),
    decreases s.len(),
{
    let t = trim_start(s);
    lemma_trim_start_len(s);
    if word_at(t, 0, word) {
        let u = trim_start(t.skip(word.len() as int));
        lemma_trim_start_len(t.skip(word.len() as int));
        if u.len() > 0 && u[0] == ':' {
            lemma_trim_start_len(u.skip(1));
            lemma_strip_fixed(trim_start(u.skip(1)), word);
        }
    }
}

/// When `l` begins `r` and holds a character that is not whitespace, both
/// lose the same leading whitespace, and what is left of `l` begins what
/// is left of `r`.
proof fn lemma_trim_start_prefix(l: Seq<char>, r: Seq<char>)
    requires
        l.len() <= r.len(),
        r.take(l.len() as int) == l,
        trim_start(l).len() > 0,
    ensures
        trim_start(l).len() <= trim_start(r).len(),
        trim_start(r).take(trim_start(l).len() as int) == trim_start(l),
        r.len() - trim_start(r).len() == l.len() - trim_start(l).len(),
    decreases l.len(),
{
    assert(l[0] == r[0]);
    if is_ws(l[0]) {
        assert(r.skip(1).take(l.skip(1).len() as int) =~= l.skip(1));
        lemma_trim_start_prefix(l.skip(1), r.skip(1));
    } else {
        assert(trim_start(r).take(l.len() as int) =~= l);
    }
}

/// A beginning of a text with no prefix left to strip has none either.
proof fn lemma_strip_prefix_of_fixed(l: Seq<char>, r: Seq<char>, word: Seq<char>)
    requires
        word.len() > 0,
        l.len() <= r.len(),
        r.take(l.len() as int) == l,
        strip_prefixes(r, word) == r,
    ensures
        strip_prefixes(l, word) == l,
{
    let t = trim_start(l);
    let wl = word.len() as int;
    if word_at(t, 0, word) {
        let u = trim_start(t.skip(wl));
        if u.len() > 0 && u[0] == ':' {
            lemma_trim_start_prefix(l, r);
            let tr = trim_start(r);
            assert(word_at(tr, 0, word)) by {
                assert forall|k: int| 0 <= k < word.len() implies ci(#[trigger] tr[0 + k], word[k]) by {
                    assert(tr[k] == tr.take(t.len() as int)[k]);
                    assert(t[0 + k] == t[k]);
                }
            }
            assert(tr.skip(wl).take(t.skip(wl).len() as int) =~= t.skip(wl));
            lemma_trim_start_prefix(t.skip(wl), tr.skip(wl));
            let ur = trim_start(tr.skip(wl));
            assert(ur[0] == ur.take(u.len() as int)[0]);
            assert(ur.len() > 0 && ur[0] == ':');
            lemma_trim_start_len(r);
            lemma_trim_start_len(tr.skip(wl));
            lemma_trim_start_len(ur.skip(1));
            lemma_strip_len(trim_start(ur.skip(1)), word);
            assert(strip_prefixes(r, word) == strip_prefixes(trim_start(ur.skip(1)), word));
            assert(strip_prefixes(r, word).len() < r.len());
        }
    }
}

/// Trimming the subject prefixes twice is trimming them once: what is
/// left begins with no `word:` prefix.
pub proof fn lemma_subject_rest_idempotent(s: Seq<char>, word: Seq<char>)
    requires
        word.len() > 0,
    ensures
        subject_rest(subject_rest(s, word), word) == subject_rest(s, word),
{
    let r = strip_prefixes(s, word);
    lemma_strip_fixed(s, word);
    lemma_nl_index_bounds(r);
    let l = r.take(nl_index(r));
    assert(r.take(l.len() as int) =~= l);
    lemma_strip_prefix_of_fixed(l, r, word);
    lemma_nl_index(l, l.len() as int);
    assert(l.take(l.len() as int) =~= l);
}

/// `s` begins with a `word:` prefix, in any case and with any whitespace
/// around it.
pub open spec fn has_prefix(s: Seq<char>, word: Seq<char>) -> bool {
    let t = trim_start(s);
    let u = trim_start(t.skip(word.len() as int));
    word_at(t, 0, word) && u.len() > 0 && u[0] == ':'
}

/// Leading whitespace is removed from the front: what is left ends `s`.
proof fn lemma_trim_start_suffix(s: Seq<char>)
    ensures
        trim_start(s).len() <= s.len(),
        trim_start(s) == s.skip(s.len() - trim_start(s).len()),
    decreases s.len(),
{
    if s.len() > 0 && is_ws(s[0]) {
        lemma_trim_start_suffix(s.skip(1));
        assert(s.skip(1).skip(s.skip(1).len() - trim_start(s.skip(1)).len()) =~= s.skip(
            s.len() - trim_start(s).len(),
        ));
    } else {
        assert(s.skip(0) =~= s);
    }
}

/// Prefixes are stripped from the front: what is left ends `s`, and is
/// shorter when `s` begins with a prefix.
proof fn lemma_strip_suffix(s: Seq<char>, word: Seq<char>)
    ensures
        strip_prefixes(s, word).len() <= s.len(),
        strip_prefixes(s, word) == s.skip(s.len() - strip_prefixes(s, word).len()),
        has_prefix(s, word) ==> strip_prefixes(s, word).len() < s.len(),
    decreases s.len(),
{
    let t = trim_start(s);
    lemma_trim_start_suffix(s);
    if word_at(t, 0, word) {
        let v = t.skip(word.len() as int);
        let u = trim_start(v);
        lemma_trim_start_suffix(v);
        if u.len() > 0 && u[0] == ':' {
            let w = trim_start(u.skip(1));
            lemma_trim_start_suffix(u.skip(1));
            lemma_strip_suffix(w, word);
            let r = strip_prefixes(w, word);
            assert(r == strip_prefixes(s, word));
            assert(r =~= s.skip(s.len() - r.len()));
        } else {
            assert(s.skip(0) =~= s);
        }
    } else {
        assert(s.skip(0) =~= s);
    }
}

/// What trimming the subject prefixes leaves is a stretch of the subject
/// (its end, for a subject on one line) that begins with no `word:`
/// prefix.
pub proof fn lemma_subject_rest_suffix(s: Seq<char>, word: Seq<char>)
    requires
        word.len() > 0,
    ensures
        ({
            let r = subject_rest(s, word);
            let k = s.len() - strip_prefixes(s, word).len();
            &&& 0 <= k <= k + r.len() <= s.len()
            &&& r == s.subrange(k, k + r.len())
            &&& !has_prefix(r, word)
            &&& (forall|j: int| 0 <= j < s.len() ==> s[j] != '\n') ==> r == s.skip(s.len() - r.len())
        }),
{
    let t = strip_prefixes(s, word);
    lemma_strip_suffix(s, word);
    lemma_nl_index_bounds(t);
    let r = t.take(nl_index(t));
    let k = s.len() - t.len();
    assert(r =~= s.subrange(k, k + r.len()));
    lemma_subject_rest_idempotent(s, word);
    lemma_strip_fixed(s, word);
    assert(t.take(r.len() as int) =~= r);
    lemma_strip_prefix_of_fixed(r, t, word);
    lemma_strip_suffix(r, word);
    if forall|j: int| 0 <= j < s.len() ==> s[j] != '\n' {
        if nl_index(t) < t.len() {
            assert(t[nl_index(t)] == s[k + nl_index(t)]);
        }
        assert(r =~= s.skip(s.len() - r.len()));
    }
}

/// Compiles `pattern` with `regex::Regex::new`, runs
/// `regex::Regex::captures` on `text` and returns the text of capture
/// group `group` (`regex::Captures::get`). The contract names the result
/// as a function of the pattern, the text and the group; for group 1 of
/// [`FWD_SUBJECT`] and [`RE_SUBJECT`] it states it (see [`subject_rest`]),
/// as the crate's documented syntax gives it. Of other patterns it says
/// nothing.
#[verifier::external_body]
pub(crate) fn regex_capture(pattern: &str, text: &str, group: usize) -> (r: Option<String>)
    ensures
        r is Some == regex_group(pattern@, text@, group as nat) is Some,
        r matches Some(g) ==> g@ == regex_group(pattern@, text@, group as nat)->0,
        pattern@ == FWD_SUBJECT@ && group == 1 ==> r is Some && r->0@ == subject_rest(text@, seq!['f', 'w', 'd']),
        pattern@ == RE_SUBJECT@ && group == 1 ==> r is Some && r->0@ == subject_rest(text@, seq!['r', 'e']),
{
    match regex::Regex::new(pattern) {
        Ok(re) => re.captures(text).and_then(|c| c.get(group)).map(|m| m.as_str().to_string()),
        Err(_) => None,
    }
}

} // verus!
