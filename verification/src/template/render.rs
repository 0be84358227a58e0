//! Writing a draft as MML: the shown header lines, an empty line, the
//! body, then each attachment as an MML part that carries its content.

use vstd::prelude::*;

use crate::text::{extend_chars, extend_str, lemma_terminate_all_push, string_of, terminate_all};

verus! {

/// A file attached to the draft.
#[derive(Clone, Debug, PartialEq, Eq)]
pub struct Attachment {
    pub content_type: String,
    pub filename: String,
    pub data: String,
}

/// Mathematical value of an [`Attachment`].
pub struct AttachmentView {
    pub content_type: Seq<char>,
    pub filename: Seq<char>,
    pub data: Seq<char>,
}

impl View for Attachment {
    type V = AttachmentView;

    open spec fn view(&self) -> AttachmentView {
        AttachmentView {
            content_type: self.content_type@,
            filename: self.filename@,
            data: self.data@,
        }
    }
}

/// The value of the first header called `name` in `hs`.
pub open spec fn lookup(hs: Seq<(Seq<char>, Seq<char>)>, name: Seq<char>) -> Option<Seq<char>>
    decreases hs.len(),
{
    if hs.len() == 0 {
        None
    } else if hs[0].0 == name {
        Some(hs[0].1)
    } else {
        lookup(hs.skip(1), name)
    }
}

/// The header lines shown for the header names `names`, in that order:
/// one line for each name that `hs` holds, with its first value.
pub open spec fn shown_headers(hs: Seq<(Seq<char>, Seq<char>)>, names: Seq<Seq<char>>) -> Seq<
    (Seq<char>, Seq<char>),
>
    decreases names.len(),
{
    if names.len() == 0 {
        seq![]
    } else {
        let rest = shown_headers(hs, names.drop_last());
        match lookup(hs, names.last()) {
            Some(v) => rest.push((names.last(), v)),
            None => rest,
        }
    }
}

/// `names` with each name kept at its first occurrence only.
pub open spec fn dedup(names: Seq<Seq<char>>) -> Seq<Seq<char>>
    decreases names.len(),
{
    if names.len() == 0 {
        seq![]
    } else if names.drop_last().contains(names.last()) {
        dedup(names.drop_last())
    } else {
        dedup(names.drop_last()).push(names.last())
    }
}

/// A header line, without its line feed.
pub open spec fn header_line(h: (Seq<char>, Seq<char>)) -> Seq<char> {
    h.0 + ": "@ + h.1
}

/// An attachment as an MML part that carries its content.
pub open spec fn part_markup(a: AttachmentView) -> Seq<char> {
    "<#part type="@ + a.content_type + " disposition=attachment recipient-filename=\""@
        + a.filename + "\">"@ + a.data + "<#/part>"@
}

/// The attachments, each written after an empty line.
pub open spec fn attachments_markup(atts: Seq<AttachmentView>) -> Seq<char>
    decreases atts.len(),
{
    if atts.len() == 0 {
        seq![]
    } else {
        attachments_markup(atts.drop_last()) + "\n\n"@ + part_markup(atts.last())
    }
}

/// The MML form of a draft: its header lines, an empty line, the body,
/// then the attachments.
pub open spec fn render_content(
    lines: Seq<(Seq<char>, Seq<char>)>,
    body: Seq<char>,
    atts: Seq<AttachmentView>,
) -> Seq<char> {
    terminate_all(lines.map_values(|h: (Seq<char>, Seq<char>)| header_line(h)), "\n"@) + "\n"@
        + body + attachments_markup(atts)
}

/// Index of the first header called `name` in `hs`.
pub(crate) fn find_header(hs: &Vec<(String, String)>, name: &String) -> (r: Option<usize>)
    ensures
        lookup(hs.deep_view(), name@) is None <==> r is None,
        r matches Some(i) ==> i < hs@.len() && lookup(hs.deep_view(), name@) == Some(
            hs@[i as int].1@,
        ),
{
    let n = hs.len();
    let ghost hv = hs.deep_view();
    assert(hv.skip(0) =~= hv);
    for i in 0..n
        invariant
            n == hs@.len(),
            hv == hs.deep_view(),
            lookup(hv, name@) == lookup(hv.skip(i as int), name@),
    {
        assert(hv.skip(i as int)[0] == hv[i as int]);
        assert(hv[i as int] == (hs@[i as int].0@, hs@[i as int].1@));
        if hs[i].0 == *name {
            return Some(i);
        }
        assert(hv.skip(i as int).skip(1) =~= hv.skip(i + 1));
    }
    None
}

/// The shown header lines for `names`, taken from `hs`.
pub fn select_headers(hs: &Vec<(String, String)>, names: &Vec<String>) -> (r: Vec<(String, String)>)
    ensures
        r.deep_view() == shown_headers(hs.deep_view(), names.deep_view()),
{
    let mut r: Vec<(String, String)> = Vec::new();
    let n = names.len();
    let ghost nv = names.deep_view();
    for i in 0..n
        invariant
            n == names@.len(),
            nv == names.deep_view(),
            r.deep_view() == shown_headers(hs.deep_view(), nv.take(i as int)),
    {
        assert(nv.take(i + 1).drop_last() =~= nv.take(i as int));
        assert(nv.take(i + 1).last() == names@[i as int]@);
        match find_header(hs, &names[i]) {
            Some(k) => {
                let ghost before = r.deep_view();
                r.push((names[i].clone(), hs[k].1.clone()));
                assert(r.deep_view() =~= before.push((names@[i as int]@, hs@[k as int].1@)));
            },
            None => {},
        }
    }
    assert(nv.take(n as int) =~= nv);
    r
}

/// Whether `names` holds `name`.
fn has_name(names: &Vec<String>, name: &String) -> (r: bool)
    ensures
        r == names.deep_view().contains(name@),
{
    let n = names.len();
    for i in 0..n
        invariant
            n == names@.len(),
            forall|j: int| 0 <= j < i ==> names@[j]@ != name@,
    {
        if names[i] == *name {
            assert(names.deep_view()[i as int] == name@);
            return true;
        }
    }
    assert forall|j: int| 0 <= j < names.deep_view().len() implies names.deep_view()[j]
        != name@ by {
        assert(names.deep_view()[j] == names@[j]@);
    }
    false
}

/// Appends to `names` the names of `extra` it does not hold yet.
pub fn extend_names(names: &mut Vec<String>, extra: &Vec<(String, String)>)
    requires
        old(names).deep_view() == dedup(old(names).deep_view()),
    ensures
        final(names).deep_view() == dedup(
            old(names).deep_view() + extra.deep_view().map_values(
                |h: (Seq<char>, Seq<char>)| h.0,
            ),
        ),
{
    let ghost base = names.deep_view();
    let ghost ev = extra.deep_view().map_values(|h: (Seq<char>, Seq<char>)| h.0);
    let n = extra.len();
    assert(base + ev.take(0) =~= base);
    for i in 0..n
        invariant
            n == extra@.len(),
            ev == extra.deep_view().map_values(|h: (Seq<char>, Seq<char>)| h.0),
            names.deep_view() == dedup(base + ev.take(i as int)),
    {
        let ghost seqi = base + ev.take(i + 1);
        assert(seqi.drop_last() =~= base + ev.take(i as int));
        assert(seqi.last() == extra@[i as int].0@);
        proof {
            lemma_dedup_contains(base + ev.take(i as int), extra@[i as int].0@);
        }
        if !has_name(names, &extra[i].0) {
            let ghost before = names.deep_view();
            names.push(extra[i].0.clone());
            assert(names.deep_view() =~= before.push(extra@[i as int].0@));
        }
    }
    assert(ev.take(n as int) =~= ev);
}

/// `dedup(s)` holds exactly the names of `s`.
pub proof fn lemma_dedup_contains(s: Seq<Seq<char>>, x: Seq<char>)
    ensures
        dedup(s).contains(x) == s.contains(x),
    decreases s.len(),
{
    if s.len() > 0 {
        lemma_dedup_contains(s.drop_last(), x);
        if s.last() == x {
            assert(s.contains(x)) by {
                assert(s[s.len() - 1] == x);
            }
            if !s.drop_last().contains(x) {
                assert(dedup(s).last() == x);
                assert(dedup(s)[dedup(s).len() - 1] == x);
            }
        } else {
            if s.contains(x) {
                let k = choose|k: int| 0 <= k < s.len() && s[k] == x;
                assert(s.drop_last()[k] == x);
            }
            if s.drop_last().contains(x) {
                let k = choose|k: int| 0 <= k < s.drop_last().len() && s.drop_last()[k] == x;
                assert(s[k] == x);
            }
            if !s.drop_last().contains(s.last()) {
                if dedup(s).contains(x) {
                    let k = choose|k: int| 0 <= k < dedup(s).len() && dedup(s)[k] == x;
                    assert(dedup(s.drop_last())[k] == x);
                }
                if dedup(s.drop_last()).contains(x) {
                    let k = choose|k: int| 0 <= k < dedup(s.drop_last()).len() && dedup(
                        s.drop_last(),
                    )[k] == x;
                    assert(dedup(s)[k] == x);
                }
            }
        }
    }
}

/// Writes a draft as MML.
pub fn render(lines: &Vec<(String, String)>, body: &[char], atts: &Vec<Attachment>) -> (r: String)
    ensures
        r@ == render_content(lines.deep_view(), body@, atts@.map_values(|a: Attachment| a@)),
{
    let mut out: Vec<char> = Vec::new();
    let ghost lv = lines.deep_view();
    let ghost hl = lv.map_values(|h: (Seq<char>, Seq<char>)| header_line(h));
    let n = lines.len();
    proof {
        reveal_strlit(": ");
        reveal_strlit("\n");
        reveal_strlit("\n\n");
    }
    for i in 0..n
        invariant
            n == lines@.len(),
            lv == lines.deep_view(),
            hl == lv.map_values(|h: (Seq<char>, Seq<char>)| header_line(h)),
            out@ == terminate_all(hl.take(i as int), "\n"@),
    {
        proof {
            lemma_terminate_all_push(hl.take(i as int), "\n"@, hl[i as int]);
            assert(hl.take(i + 1) =~= hl.take(i as int).push(hl[i as int]));
        }
        assert(lv[i as int] == (lines@[i as int].0@, lines@[i as int].1@));
        assert(hl[i as int] == header_line(lv[i as int]));
        let ghost before = out@;
        proof {
            reveal_strlit(": ");
            reveal_strlit("\n");
        }
        extend_str(&mut out, lines[i].0.as_str());
        extend_str(&mut out, ": ");
        extend_str(&mut out, lines[i].1.as_str());
        out.push('\n');
        assert(out@ =~= before + hl[i as int] + "\n"@);
        assert(out@ =~= terminate_all(hl.take(i + 1), "\n"@));
    }
    assert(hl.take(n as int) =~= hl);
    out.push('\n');
    extend_chars(&mut out, body);
    let ghost av = atts@.map_values(|a: Attachment| a@);
    let ghost head = out@;
    let m = atts.len();
    assert(av.take(0) =~= Seq::<AttachmentView>::empty());
    for i in 0..m
        invariant
            m == atts@.len(),
            av == atts@.map_values(|a: Attachment| a@),
            out@ == head + attachments_markup(av.take(i as int)),
    {
        assert(av.take(i + 1).drop_last() =~= av.take(i as int));
        proof {
            reveal_strlit("<#part type=");
            reveal_strlit(" disposition=attachment recipient-filename=\"");
            reveal_strlit("\">");
            reveal_strlit("<#/part>");
        }
        extend_str(&mut out, "\n\n");
        extend_str(&mut out, "<#part type=");
        extend_str(&mut out, atts[i].content_type.as_str());
        extend_str(&mut out, " disposition=attachment recipient-filename=\"");
        extend_str(&mut out, atts[i].filename.as_str());
        extend_str(&mut out, "\">");
        extend_str(&mut out, atts[i].data.as_str());
        extend_str(&mut out, "<#/part>");
        assert(out@ =~= head + attachments_markup(av.take(i + 1)));
    }
    assert(av.take(m as int) =~= av);
    assert(out@ =~= render_content(lines.deep_view(), body@, av));
    string_of(&out)
}

} // verus!

verus! {

/// The headers a draft shows, in this order.
pub open spec fn base_names() -> Seq<Seq<char>> {
    seq!["From"@, "To"@, "In-Reply-To"@, "Cc"@, "Subject"@]
}

/// The headers a draft shows: `From`, `To`, `In-Reply-To`, `Cc`,
/// `Subject`.
pub fn draft_header_names() -> (r: Vec<String>)
    ensures
        r.deep_view() == base_names(),
        dedup(base_names()) == base_names(),
{
    proof {
        reveal_strlit("From");
        reveal_strlit("To");
        reveal_strlit("In-Reply-To");
        reveal_strlit("Cc");
        reveal_strlit("Subject");
        let b = base_names();
        assert(b.take(1).drop_last() =~= Seq::<Seq<char>>::empty());
        assert(b.take(2).drop_last() =~= b.take(1));
        assert(b.take(3).drop_last() =~= b.take(2));
        assert(b.take(4).drop_last() =~= b.take(3));
        assert(b.take(5).drop_last() =~= b.take(4));
        assert(b.take(5) =~= b);
        assert(b[0].len() == 4 && b[1].len() == 2 && b[2].len() == 11 && b[3].len() == 2
            && b[4].len() == 7);
        assert(b[1][0] == 'T' && b[3][0] == 'C');
        assert(b[0] != b[1]);
        assert(!b.take(1).contains(b[1]));
        assert(b[2] != b[0] && b[2] != b[1]);
        assert(!b.take(2).contains(b[2]));
        assert(b[3] != b[0] && b[3] != b[1] && b[3] != b[2]);
        assert(!b.take(3).contains(b[3]));
        assert(b[4] != b[0] && b[4] != b[1] && b[4] != b[2] && b[4] != b[3]);
        assert(!b.take(4).contains(b[4]));
        assert(dedup(b.take(1).drop_last()) =~= Seq::<Seq<char>>::empty());
        assert(!b.take(1).drop_last().contains(b.take(1).last()));
        assert(dedup(b.take(1)) =~= b.take(1));
        assert(dedup(b.take(2)) =~= b.take(2));
        assert(dedup(b.take(3)) =~= b.take(3));
        assert(dedup(b.take(4)) =~= b.take(4));
        assert(dedup(b.take(5)) =~= b.take(5));
    }
    let r = vec![
        "From".to_owned(),
        "To".to_owned(),
        "In-Reply-To".to_owned(),
        "Cc".to_owned(),
        "Subject".to_owned(),
    ];
    assert(r.deep_view() =~= base_names());
    r
}

} // verus!
