//! Character-level text operations shared by the template builders and
//! the command helpers: the usual `str` operations (`lines`, `trim`,
//! `replace`, `join`) stated over `Seq<char>` and implemented on
//! `Vec<char>` buffers.

use vstd::prelude::*;

verus! {

// ---------------------------------------------------------------------------
// Specifications
// ---------------------------------------------------------------------------

/// Unicode `White_Space`, the property behind `char::is_whitespace`.
pub open spec fn is_ws(c: char) -> bool {
    ||| c == ' '
    ||| ('\t' <= c && c <= '\r')
    ||| c == '\u{85}'
    ||| c == '\u{a0}'
    ||| c == '\u{1680}'
    ||| ('\u{2000}' <= c && c <= '\u{200a}')
    ||| c == '\u{2028}'
    ||| c == '\u{2029}'
    ||| c == '\u{202f}'
    ||| c == '\u{205f}'
    ||| c == '\u{3000}'
}

/// `s` without its leading whitespace.
pub open spec fn trim_start(s: Seq<char>) -> Seq<char>
    decreases s.len(),
{
    if s.len() > 0 && is_ws(s[0]) {
        trim_start(s.skip(1))
    } else {
        s
    }
}

/// Removing leading whitespace shortens a text or leaves it.
pub proof fn lemma_trim_start_len(s: Seq<char>)
    ensures
        trim_start(s).len() <= s.len(),
    decreases s.len(),
{
    if s.len() > 0 && is_ws(s[0]) {
        lemma_trim_start_len(s.skip(1));
    }
}

/// `s` without its trailing whitespace.
pub open spec fn trim_end(s: Seq<char>) -> Seq<char>
    decreases s.len(),
{
    if s.len() > 0 && is_ws(s.last()) {
        trim_end(s.drop_last())
    } else {
        s
    }
}

/// `s` without leading and trailing whitespace (`str::trim`).
pub open spec fn trim(s: Seq<char>) -> Seq<char> {
    trim_end(trim_start(s))
}

/// Index of the first line feed of `s`, or `s.len()` when there is none.
pub open spec fn nl_index(s: Seq<char>) -> int
    decreases s.len(),
{
    if s.len() == 0 {
        0
    } else if s[0] == '\n' {
        0
    } else {
        1 + nl_index(s.skip(1))
    }
}

/// The first line feed is within the text, or at its end when there is none.
pub proof fn lemma_nl_index_bounds(s: Seq<char>)
    ensures
        0 <= nl_index(s) <= s.len(),
        nl_index(s) < s.len() ==> s[nl_index(s)] == '\n',
        forall|j: int| 0 <= j < nl_index(s) ==> s[j] != '\n',
    decreases s.len(),
{
    if s.len() > 0 && s[0] != '\n' {
        lemma_nl_index_bounds(s.skip(1));
        assert forall|j: int| 0 <= j < nl_index(s) implies s[j] != '\n' by {
            if j > 0 {
                assert(s[j] == s.skip(1)[j - 1]);
            }
        }
    }
}

/// A line without the carriage return that ends it, if any.
pub open spec fn strip_cr(l: Seq<char>) -> Seq<char> {
    if l.len() > 0 && l.last() == '\r' {
        l.drop_last()
    } else {
        l
    }
}

/// The lines of `s`, as `str::lines` yields them: split after each line
/// feed, the line feed and a carriage return just before it dropped, and
/// no empty line after a final line feed.
pub open spec fn lines(s: Seq<char>) -> Seq<Seq<char>>
    decreases s.len(),
{
    if s.len() == 0 {
        seq![]
    } else {
        let i = nl_index(s);
        proof {
            lemma_nl_index_bounds(s);
        }
        if i < s.len() {
            seq![strip_cr(s.take(i))] + lines(s.skip(i + 1))
        } else {
            seq![s]
        }
    }
}

/// Every non-overlapping occurrence of `pat` in `s`, from left to right,
/// replaced by `rep` (`str::replace`).
pub open spec fn replace_all(s: Seq<char>, pat: Seq<char>, rep: Seq<char>) -> Seq<char>
    decreases s.len(),
{
    if s.len() == 0 {
        seq![]
    } else if pat.len() > 0 && pat.len() <= s.len() && s.take(pat.len() as int) == pat {
        rep + replace_all(s.skip(pat.len() as int), pat, rep)
    } else {
        seq![s[0]] + replace_all(s.skip(1), pat, rep)
    }
}

/// The items of `parts` separated by `sep`.
pub open spec fn join(parts: Seq<Seq<char>>, sep: Seq<char>) -> Seq<char>
    decreases parts.len(),
{
    if parts.len() == 0 {
        seq![]
    } else if parts.len() == 1 {
        parts[0]
    } else {
        join(parts.drop_last(), sep) + sep + parts.last()
    }
}

/// Each item of `parts` followed by `end`.
pub open spec fn terminate_all(parts: Seq<Seq<char>>, end: Seq<char>) -> Seq<char>
    decreases parts.len(),
{
    if parts.len() == 0 {
        seq![]
    } else {
        terminate_all(parts.drop_last(), end) + parts.last() + end
    }
}

/// Number of line feeds in `s`.
pub open spec fn count_nl(s: Seq<char>) -> nat
    decreases s.len(),
{
    if s.len() == 0 {
        0
    } else {
        count_nl(s.drop_last()) + if s.last() == '\n' {
            1nat
        } else {
            0nat
        }
    }
}

/// Number of characters after the last line feed of `s` (all of them
/// when there is none).
pub open spec fn last_line_len(s: Seq<char>) -> nat
    decreases s.len(),
{
    if s.len() == 0 {
        0
    } else if s.last() == '\n' {
        0
    } else {
        last_line_len(s.drop_last()) + 1
    }
}

/// `s` holds `pat` at position `i`.
pub open spec fn occurs_at(s: Seq<char>, pat: Seq<char>, i: int) -> bool {
    0 <= i && i + pat.len() <= s.len() && s.subrange(i, i + pat.len()) == pat
}

/// `s` holds no occurrence of `pat`.
pub open spec fn free_of(s: Seq<char>, pat: Seq<char>) -> bool {
    forall|i: int| !#[trigger] occurs_at(s, pat, i)
}

// ---------------------------------------------------------------------------
// Lemmas
// ---------------------------------------------------------------------------

/// Line feeds of a concatenation add up.
pub proof fn lemma_count_nl_append(a: Seq<char>, b: Seq<char>)
    ensures
        count_nl(a + b) == count_nl(a) + count_nl(b),
    decreases b.len(),
{
    if b.len() == 0 {
        assert(a + b =~= a);
    } else {
        assert((a + b).drop_last() =~= a + b.drop_last());
        lemma_count_nl_append(a, b.drop_last());
    }
}

/// A text holds at most as many line feeds as characters.
pub proof fn lemma_count_nl_le(s: Seq<char>)
    ensures
        count_nl(s) <= s.len(),
    decreases s.len(),
{
    if s.len() > 0 {
        lemma_count_nl_le(s.drop_last());
    }
}

/// A sequence with no line feed in `s[0..k]` and a line feed (or the end)
/// at `k` has its first line feed at `k`.
pub proof fn lemma_nl_index(s: Seq<char>, k: int)
    requires
        0 <= k <= s.len(),
        forall|j: int| 0 <= j < k ==> s[j] != '\n',
        k == s.len() || s[k] == '\n',
    ensures
        nl_index(s) == k,
    decreases s.len(),
{
    if s.len() > 0 && k > 0 {
        lemma_nl_index(s.skip(1), k - 1);
    }
}

/// Joining one more item appends the separator (when there were items) and the item.
pub proof fn lemma_join_push(parts: Seq<Seq<char>>, sep: Seq<char>, p: Seq<char>)
    ensures
        join(parts.push(p), sep) == if parts.len() == 0 {
            p
        } else {
            join(parts, sep) + sep + p
        },
{
    assert(parts.push(p).drop_last() =~= parts);
}

/// Terminating one more item appends the item and the terminator.
pub proof fn lemma_terminate_all_push(parts: Seq<Seq<char>>, end: Seq<char>, p: Seq<char>)
    ensures
        terminate_all(parts.push(p), end) == terminate_all(parts, end) + p + end,
{
    assert(parts.push(p).drop_last() =~= parts);
}

/// A non-empty text without line feeds is a single line.
pub proof fn lemma_lines_no_nl(s: Seq<char>)
    requires
        s.len() > 0,
        forall|j: int| 0 <= j < s.len() ==> s[j] != '\n',
    ensures
        lines(s) == seq![s],
{
    lemma_nl_index(s, s.len() as int);
}

// ---------------------------------------------------------------------------
// Executable operations
// ---------------------------------------------------------------------------

/// Appends `c` to `s` (`String::push`).
#[verifier::external_body]
pub(crate) fn push_char(s: &mut String, c: char)
    ensures
        final(s)@ == old(s)@.push(c),
{
    s.push(c);
}

/// `char::is_whitespace`.
pub fn is_whitespace(c: char) -> (r: bool)
    ensures
        r == is_ws(c),
{
    c == ' ' || ('\t' <= c && c <= '\r') || c == '\u{85}' || c == '\u{a0}' || c == '\u{1680}'
        || ('\u{2000}' <= c && c <= '\u{200a}') || c == '\u{2028}' || c == '\u{2029}' || c
        == '\u{202f}' || c == '\u{205f}' || c == '\u{3000}'
}

/// The characters of `s`, in order.
pub fn chars_of(s: &str) -> (r: Vec<char>)
    ensures
        r@ == s@,
{
    let mut r: Vec<char> = Vec::new();
    for c in it: s.chars()
        invariant
            r@ == it.seq().take(it.index() as int),
    {
        r.push(c);
    }
    assert(r@ =~= s@);
    r
}

/// A `String` holding the characters of `v`.
pub fn string_of(v: &[char]) -> (r: String)
    ensures
        r@ == v@,
{
    let mut r = String::new();
    let n = v.len();
    for i in 0..n
        invariant
            n == v@.len(),
            r@ == v@.take(i as int),
    {
        push_char(&mut r, v[i]);
        assert(v@.take(i + 1) =~= v@.take(i as int).push(v@[i as int]));
    }
    assert(v@.take(n as int) =~= v@);
    r
}

/// Appends the characters of `src` to `dst`.
pub fn extend_chars(dst: &mut Vec<char>, src: &[char])
    ensures
        final(dst)@ == old(dst)@ + src@,
{
    let n = src.len();
    for i in 0..n
        invariant
            n == src@.len(),
            dst@ == old(dst)@ + src@.take(i as int),
    {
        dst.push(src[i]);
        assert(src@.take(i + 1) =~= src@.take(i as int).push(src@[i as int]));
    }
    assert(src@.take(n as int) =~= src@);
}

/// Appends the characters of `src` to `dst`.
pub fn extend_str(dst: &mut Vec<char>, src: &str)
    ensures
        final(dst)@ == old(dst)@ + src@,
{
    let v = chars_of(src);
    extend_chars(dst, &v);
}

/// `pat` occurs in `s` at position `i`.
pub fn matches_at(s: &[char], i: usize, pat: &[char]) -> (r: bool)
    ensures
        r == occurs_at(s@, pat@, i as int),
{
    if i > s.len() || pat.len() > s.len() - i {
        return false;
    }
    let n = pat.len();
    let sl = s.len();
    for k in 0..n
        invariant
            n == pat@.len(),
            sl == s@.len(),
            i + n <= s@.len(),
            forall|j: int| 0 <= j < k ==> s@[i + j] == pat@[j],
    {
        if s[i + k] != pat[k] {
            assert(s@.subrange(i as int, i + n)[k as int] != pat@[k as int]);
            return false;
        }
    }
    assert(s@.subrange(i as int, i + n) =~= pat@);
    true
}

/// `str::trim` on a character buffer.
pub fn trim_chars(s: &[char]) -> (r: Vec<char>)
    ensures
        r@ == trim(s@),
{
    let n = s.len();
    let mut i: usize = 0;
    assert(s@.skip(0) =~= s@);
    while i < n && is_whitespace(s[i])
        invariant
            n == s@.len(),
            i <= n,
            trim_start(s@) == trim_start(s@.skip(i as int)),
        decreases n - i,
    {
        assert(s@.skip(i as int).skip(1) =~= s@.skip(i + 1));
        i = i + 1;
    }
    let mut j: usize = n;
    assert(s@.skip(i as int) =~= s@.subrange(i as int, n as int));
    while j > i && is_whitespace(s[j - 1])
        invariant
            n == s@.len(),
            i <= j <= n,
            trim_start(s@) == s@.subrange(i as int, n as int),
            trim_end(s@.subrange(i as int, n as int)) == trim_end(s@.subrange(i as int, j as int)),
        decreases j,
    {
        assert(s@.subrange(i as int, j as int).drop_last() =~= s@.subrange(i as int, j - 1));
        j = j - 1;
    }
    let mut r: Vec<char> = Vec::new();
    for k in i..j
        invariant
            i <= j <= n,
            n == s@.len(),
            r@ == s@.subrange(i as int, k as int),
    {
        r.push(s[k]);
        assert(s@.subrange(i as int, k + 1) =~= s@.subrange(i as int, k as int).push(s@[k as int]));
    }
    r
}

/// `str::lines` on a character buffer.
pub fn lines_of(s: &[char]) -> (r: Vec<Vec<char>>)
    ensures
        r@.len() == lines(s@).len(),
        forall|k: int| 0 <= k < r@.len() ==> #[trigger] r@[k]@ == lines(s@)[k],
{
    let n = s.len();
    let mut done: Vec<Vec<char>> = Vec::new();
    let ghost mut dv: Seq<Seq<char>> = seq![];
    let mut cur: Vec<char> = Vec::new();
    let mut start: usize = 0;
    assert(s@.skip(0) =~= s@);
    assert(dv + lines(s@) =~= lines(s@));
    for i in 0..n
        invariant
            n == s@.len(),
            start <= i,
            cur@ == s@.subrange(start as int, i as int),
            forall|j: int| start <= j < i ==> s@[j] != '\n',
            dv.len() == done@.len(),
            forall|k: int| 0 <= k < dv.len() ==> #[trigger] done@[k]@ == dv[k],
            lines(s@) == dv + lines(s@.skip(start as int)),
    {
        if s[i] == '\n' {
            let ghost t = s@.skip(start as int);
            proof {
                lemma_nl_index(t, i - start);
                assert(t.take(i - start) =~= cur@);
                assert(t.skip(i - start + 1) =~= s@.skip(i + 1));
            }
            let line = if cur.len() > 0 && cur[cur.len() - 1] == '\r' {
                let mut l = cur;
                l.pop();
                l
            } else {
                cur
            };
            proof {
                assert(line@ =~= strip_cr(t.take(i - start)));
                dv = dv.push(line@);
            }
            done.push(line);
            cur = Vec::new();
            start = i + 1;
            proof {
                assert(lines(s@) =~= dv + lines(s@.skip(start as int)));
            }
        } else {
            cur.push(s[i]);
            assert(s@.subrange(start as int, i + 1) =~= s@.subrange(start as int, i as int).push(
                s@[i as int],
            ));
        }
    }
    let ghost t = s@.skip(start as int);
    if cur.len() > 0 {
        proof {
            assert(t =~= cur@);
            lemma_lines_no_nl(t);
            dv = dv.push(cur@);
        }
        done.push(cur);
    } else {
        assert(t.len() == 0);
        assert(dv + lines(t) =~= dv);
    }
    done
}

/// `str::replace` on a character buffer, for a non-empty pattern.
pub fn replace_chars(s: &[char], pat: &[char], rep: &[char]) -> (r: Vec<char>)
    requires
        pat@.len() > 0,
    ensures
        r@ == replace_all(s@, pat@, rep@),
{
    let n = s.len();
    let mut r: Vec<char> = Vec::new();
    let mut i: usize = 0;
    assert(s@.skip(0) =~= s@);
    assert(r@ + replace_all(s@, pat@, rep@) =~= replace_all(s@, pat@, rep@));
    while i < n
        invariant
            n == s@.len(),
            i <= n,
            pat@.len() > 0,
            r@ + replace_all(s@.skip(i as int), pat@, rep@) == replace_all(s@, pat@, rep@),
        decreases n - i,
    {
        let ghost t = s@.skip(i as int);
        if matches_at(s, i, pat) {
            proof {
                assert(t.take(pat@.len() as int) =~= s@.subrange(i as int, i + pat@.len()));
                assert(t.skip(pat@.len() as int) =~= s@.skip(i + pat@.len()));
            }
            extend_chars(&mut r, rep);
            i = i + pat.len();
            proof {
                assert(r@ + replace_all(s@.skip(i as int), pat@, rep@) =~= replace_all(
                    s@,
                    pat@,
                    rep@,
                ));
            }
        } else {
            proof {
                if pat@.len() <= t.len() {
                    assert(t.take(pat@.len() as int) =~= s@.subrange(i as int, i + pat@.len()));
                }
                assert(t.skip(1) =~= s@.skip(i + 1));
            }
            r.push(s[i]);
            i = i + 1;
            proof {
                assert(r@ + replace_all(s@.skip(i as int), pat@, rep@) =~= replace_all(
                    s@,
                    pat@,
                    rep@,
                ));
            }
        }
    }
    assert(s@.skip(n as int).len() == 0);
    assert(r@ =~= replace_all(s@, pat@, rep@));
    r
}

/// Number of line feeds in `s`.
pub fn count_newlines(s: &[char]) -> (r: usize)
    ensures
        r == count_nl(s@),
{
    let n = s.len();
    let mut c: usize = 0;
    for i in 0..n
        invariant
            n == s@.len(),
            c == count_nl(s@.take(i as int)),
            c <= i,
    {
        assert(s@.take(i + 1).drop_last() =~= s@.take(i as int));
        if s[i] == '\n' {
            c = c + 1;
        }
    }
    assert(s@.take(n as int) =~= s@);
    c
}

/// Number of characters after the last line feed of `s`.
pub fn last_line_length(s: &[char]) -> (r: usize)
    ensures
        r == last_line_len(s@),
{
    let n = s.len();
    let mut c: usize = 0;
    for i in 0..n
        invariant
            n == s@.len(),
            c == last_line_len(s@.take(i as int)),
            c <= i,
    {
        assert(s@.take(i + 1).drop_last() =~= s@.take(i as int));
        if s[i] == '\n' {
            c = 0;
        } else {
            c = c + 1;
        }
    }
    assert(s@.take(n as int) =~= s@);
    c
}

} // verus!

verus! {

/// The text `String::from_utf8_lossy` decodes from `bytes`.
pub uninterp spec fn lossy_text(bytes: Seq<u8>) -> Seq<char>;

/// Decodes `bytes` as UTF-8 with `String::from_utf8_lossy`, invalid
/// sequences replaced by U+FFFD. The contract names the result, and
/// states that valid UTF-8 is decoded as it is; it says nothing of how
/// invalid sequences are replaced.
#[verifier::external_body]
pub(crate) fn utf8_lossy(bytes: &[u8]) -> (r: String)
    ensures
        r@ == lossy_text(bytes@),
        vstd::utf8::valid_utf8(bytes@) ==> r@ == vstd::utf8::decode_utf8(bytes@),
{
    String::from_utf8_lossy(bytes).into_owned()
}

/// `s` without its carriage returns.
pub open spec fn remove_cr(s: Seq<char>) -> Seq<char>
    decreases s.len(),
{
    if s.len() == 0 {
        seq![]
    } else if s.last() == '\r' {
        remove_cr(s.drop_last())
    } else {
        remove_cr(s.drop_last()).push(s.last())
    }
}

/// A text without carriage returns holds none once they are removed.
pub proof fn lemma_remove_cr_free(s: Seq<char>)
    ensures
        forall|j: int| 0 <= j < remove_cr(s).len() ==> remove_cr(s)[j] != '\r',
    decreases s.len(),
{
    if s.len() > 0 {
        lemma_remove_cr_free(s.drop_last());
        let r = remove_cr(s.drop_last());
        if s.last() != '\r' {
            assert forall|j: int| 0 <= j < r.push(s.last()).len() implies r.push(s.last())[j] != '\r' by {
                if j < r.len() {
                    assert(r.push(s.last())[j] == r[j]);
                }
            }
        }
    }
}

/// The lines of a text without carriage returns hold none.
pub proof fn lemma_lines_no_cr(s: Seq<char>)
    requires
        forall|j: int| 0 <= j < s.len() ==> s[j] != '\r',
    ensures
        forall|k: int, j: int|
            0 <= k < lines(s).len() && 0 <= j < lines(s)[k].len() ==> lines(s)[k][j] != '\r',
    decreases s.len(),
{
    if s.len() > 0 {
        lemma_nl_index_bounds(s);
        let i = nl_index(s);
        if i < s.len() {
            let rest = s.skip(i + 1);
            assert forall|j: int| 0 <= j < rest.len() implies rest[j] != '\r' by {
                assert(rest[j] == s[j + i + 1]);
            }
            lemma_lines_no_cr(rest);
            let first = strip_cr(s.take(i));
            assert(lines(s) == seq![first] + lines(rest));
            assert forall|k: int, j: int|
                0 <= k < lines(s).len() && 0 <= j < lines(s)[k].len() implies lines(s)[k][j]
                != '\r' by {
                if k == 0 {
                    assert(lines(s)[0] == first);
                    assert(first[j] == s[j]);
                } else {
                    assert(lines(s)[k] == lines(rest)[k - 1]);
                }
            }
        } else {
            assert(lines(s) == seq![s]);
        }
    }
}

/// `s` without its carriage returns.
pub fn remove_carriage_returns(s: &[char]) -> (r: Vec<char>)
    ensures
        r@ == remove_cr(s@),
{
    let mut r: Vec<char> = Vec::new();
    let n = s.len();
    for i in 0..n
        invariant
            n == s@.len(),
            r@ == remove_cr(s@.take(i as int)),
    {
        assert(s@.take(i + 1).drop_last() =~= s@.take(i as int));
        if s[i] != '\r' {
            r.push(s[i]);
        }
    }
    assert(s@.take(n as int) =~= s@);
    r
}

/// `s` up to the last occurrence of `pat`, or all of `s` when `pat` does
/// not occur (the first half of `str::rsplit_once`, or the whole).
pub open spec fn before_last(s: Seq<char>, pat: Seq<char>) -> Seq<char> {
    if exists|i: int| occurs_at(s, pat, i) {
        let i = choose|i: int|
            occurs_at(s, pat, i) && forall|j: int| j > i ==> !#[trigger] occurs_at(s, pat, j);
        s.take(i)
    } else {
        s
    }
}

/// `s` up to the last occurrence of `pat`, or all of `s`.
pub fn cut_before_last(s: &[char], pat: &[char]) -> (r: Vec<char>)
    ensures
        r@ == before_last(s@, pat@),
{
    let n = s.len();
    let p = pat.len();
    let mut found: Option<usize> = None;
    if p <= n {
        let mut i: usize = n - p;
        let mut searching = true;
        while searching
            invariant
                n == s@.len(),
                p == pat@.len(),
                p <= n,
                i <= n - p,
                searching ==> found is None,
                searching ==> forall|j: int| j > i ==> !#[trigger] occurs_at(s@, pat@, j),
                !searching ==> (found is None && forall|j: int| !#[trigger] occurs_at(s@, pat@, j))
                    || (found matches Some(k) && occurs_at(s@, pat@, k as int) && forall|j: int|
                    j > k ==> !#[trigger] occurs_at(s@, pat@, j)),
            decreases i + if searching { 1int } else { 0int },
        {
            if matches_at(s, i, pat) {
                found = Some(i);
                searching = false;
            } else if i == 0 {
                searching = false;
            } else {
                i = i - 1;
            }
        }
    } else {
        assert(forall|j: int| !#[trigger] occurs_at(s@, pat@, j));
    }
    match found {
        Some(k) => {
            proof {
                assert(occurs_at(s@, pat@, k as int));
                let c = choose|i: int|
                    occurs_at(s@, pat@, i) && forall|j: int| j > i ==> !#[trigger] occurs_at(
                        s@,
                        pat@,
                        j,
                    );
                assert(forall|j: int| j > k ==> !#[trigger] occurs_at(s@, pat@, j));
                assert(c == k);
            }
            let mut r: Vec<char> = Vec::new();
            for t in 0..k
                invariant
                    k <= s@.len(),
                    r@ == s@.take(t as int),
            {
                r.push(s[t]);
                assert(s@.take(t + 1) =~= s@.take(t as int).push(s@[t as int]));
            }
            r
        },
        None => {
            let mut r: Vec<char> = Vec::new();
            extend_chars(&mut r, s);
            r
        },
    }
}

} // verus!

verus! {

/// Sum of the lengths of `ls`, each counted with one more character (its
/// line feed).
pub open spec fn total_len(ls: Seq<Seq<char>>) -> nat
    decreases ls.len(),
{
    if ls.len() == 0 {
        0
    } else {
        total_len(ls.drop_last()) + ls.last().len() + 1
    }
}

/// The total length of lines grows by the first line and its line feed.
pub proof fn lemma_total_len_prepend(l: Seq<char>, ls: Seq<Seq<char>>)
    ensures
        total_len(seq![l] + ls) == l.len() + 1 + total_len(ls),
    decreases ls.len(),
{
    if ls.len() > 0 {
        assert((seq![l] + ls).drop_last() =~= seq![l] + ls.drop_last());
        assert((seq![l] + ls).last() == ls.last());
        lemma_total_len_prepend(l, ls.drop_last());
    } else {
        assert(seq![l] + ls =~= seq![l]);
        assert(seq![l].drop_last() =~= Seq::<Seq<char>>::empty());
        assert(total_len(Seq::<Seq<char>>::empty()) == 0);
        assert(seq![l].last() == l);
    }
}

/// The lines of `s` hold no line feed, fit in it, and there is at least
/// one when `s` is not empty.
pub proof fn lemma_lines_facts(s: Seq<char>)
    ensures
        total_len(lines(s)) <= s.len() + 1,
        s.len() > 0 ==> lines(s).len() > 0,
        forall|k: int, j: int|
            0 <= k < lines(s).len() && 0 <= j < lines(s)[k].len() ==> lines(s)[k][j] != '\n',
    decreases s.len(),
{
    if s.len() > 0 {
        lemma_nl_index_bounds(s);
        let i = nl_index(s);
        if i < s.len() {
            let rest = s.skip(i + 1);
            lemma_lines_facts(rest);
            let first = strip_cr(s.take(i));
            lemma_total_len_prepend(first, lines(rest));
            assert(lines(s) == seq![first] + lines(rest));
            assert(first.len() <= i);
            assert(rest.len() == s.len() - i - 1);
            assert forall|k: int, j: int|
                0 <= k < lines(s).len() && 0 <= j < lines(s)[k].len() implies lines(s)[k][j]
                != '\n' by {
                if k == 0 {
                    assert(lines(s)[0] == first);
                    assert(first[j] == s[j]);
                } else {
                    assert(lines(s)[k] == lines(rest)[k - 1]);
                }
            }
        } else {
            assert(lines(s) == seq![s]);
            assert(seq![s].drop_last() =~= Seq::<Seq<char>>::empty());
            assert(total_len(Seq::<Seq<char>>::empty()) == 0);
            assert(seq![s].last() == s);
            assert(total_len(seq![s]) == s.len() + 1);
        }
    }
}

/// Terminating each item with a character, less the last one, joins the
/// items with that character.
pub proof fn lemma_terminate_join(xs: Seq<Seq<char>>, c: char)
    requires
        xs.len() > 0,
    ensures
        terminate_all(xs, seq![c]).drop_last() == join(xs, seq![c]),
    decreases xs.len(),
{
    if xs.len() == 1 {
        assert(xs.drop_last() =~= Seq::<Seq<char>>::empty());
        assert(terminate_all(Seq::<Seq<char>>::empty(), seq![c]) == Seq::<char>::empty());
        assert(xs.last() == xs[0]);
        assert(terminate_all(xs, seq![c]) =~= xs[0] + seq![c]);
        assert((xs[0] + seq![c]).drop_last() =~= xs[0]);
    } else {
        lemma_terminate_join(xs.drop_last(), c);
        let t = terminate_all(xs.drop_last(), seq![c]);
        assert(t.len() > 0);
        assert(t =~= t.drop_last().push(c));
        assert((t + xs.last() + seq![c]).drop_last() =~= t.drop_last() + seq![c] + xs.last());
    }
}

/// Joining items that hold no line feed with line feeds gives one line
/// feed fewer than items.
pub proof fn lemma_count_nl_join_lines(xs: Seq<Seq<char>>)
    requires
        xs.len() > 0,
        forall|k: int| 0 <= k < xs.len() ==> count_nl(#[trigger] xs[k]) == 0,
    ensures
        count_nl(join(xs, seq!['\n'])) + 1 == xs.len(),
    decreases xs.len(),
{
    if xs.len() == 1 {
        assert(count_nl(xs[0]) == 0);
    } else {
        lemma_count_nl_join_lines(xs.drop_last());
        let j = join(xs.drop_last(), seq!['\n']);
        lemma_count_nl_append(j, seq!['\n']);
        lemma_count_nl_append(j + seq!['\n'], xs.last());
        assert(count_nl(seq!['\n']) == 1) by {
            assert(seq!['\n'].drop_last() =~= Seq::<char>::empty());
            assert(count_nl(Seq::<char>::empty()) == 0);
            assert(seq!['\n'].last() == '\n');
        }
        assert(count_nl(xs.last()) == 0) by {
            assert(xs.last() == xs[xs.len() - 1]);
        }
    }
}

/// A sequence with no line feed has none to count.
pub proof fn lemma_count_nl_zero(s: Seq<char>)
    requires
        forall|j: int| 0 <= j < s.len() ==> s[j] != '\n',
    ensures
        count_nl(s) == 0,
    decreases s.len(),
{
    if s.len() > 0 {
        lemma_count_nl_zero(s.drop_last());
    }
}

} // verus!
