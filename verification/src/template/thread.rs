//! The source message as it appears inside a reply (the quoted text) or a
//! forward (its main headers and its text).

use vstd::prelude::*;

use crate::template::address::{render_mailbox, write_mailbox};
use crate::template::message::{
    GroupView, Mailbox, MailboxGroup, MailboxView, ParsedHeader, HeaderView, SourceMessage,
};
use crate::template::render::{render, render_content};
use crate::text::{
    before_last, chars_of, cut_before_last, extend_chars, extend_str, join, lemma_join_push,
    remove_carriage_returns, remove_cr, trim, trim_chars,
};

verus! {

/// A parsed mailbox as written in a header: its address with its name
/// (see [`render_mailbox`]), or its name alone when it has no address.
pub open spec fn parsed_mailbox_text(m: MailboxView) -> Seq<char> {
    match m.address {
        Some(e) => render_mailbox(m.name, e),
        None => match m.name {
            Some(n) => n,
            None => Seq::<char>::empty(),
        },
    }
}

/// Parsed mailboxes as written in a header, separated by `, `.
pub open spec fn parsed_mailboxes_text(ms: Seq<MailboxView>) -> Seq<char> {
    join(ms.map_values(|m: MailboxView| parsed_mailbox_text(m)), ", "@)
}

/// A parsed group as written in a header: `name: member, member;`.
pub open spec fn parsed_group_text(g: GroupView) -> Seq<char> {
    let name = match g.name {
        Some(n) => n,
        None => Seq::<char>::empty(),
    };
    name + ": "@ + parsed_mailboxes_text(g.addresses) + ";"@
}

/// A parsed header value as written in a header, if it has a textual
/// form: address lists and groups separated by `, `, text lists by
/// spaces. Empty headers and other values have none.
pub open spec fn header_text(h: HeaderView) -> Option<Seq<char>> {
    match h {
        HeaderView::Empty => None,
        HeaderView::Addresses(ms) => Some(parsed_mailboxes_text(ms)),
        HeaderView::Groups(gs) => Some(
            join(gs.map_values(|g: GroupView| parsed_group_text(g)), ", "@),
        ),
        HeaderView::Text(t) => Some(t),
        HeaderView::TextList(ts) => Some(join(ts, " "@)),
        HeaderView::Other => None,
    }
}

fn write_parsed_mailbox(out: &mut Vec<char>, m: &Mailbox)
    ensures
        final(out)@ == old(out)@ + parsed_mailbox_text(m@),
{
    match &m.address {
        Some(e) => write_mailbox(out, &m.name, e.as_str()),
        None => match &m.name {
            Some(n) => extend_str(out, n.as_str()),
            None => {},
        },
    }
}

fn write_parsed_mailboxes(out: &mut Vec<char>, ms: &Vec<Mailbox>)
    ensures
        final(out)@ == old(out)@ + parsed_mailboxes_text(ms@.map_values(|m: Mailbox| m@)),
{
    let ghost mv = ms@.map_values(|m: Mailbox| m@);
    let ghost rendered = mv.map_values(|m: MailboxView| parsed_mailbox_text(m));
    let n = ms.len();
    let ghost start = out@;
    for i in 0..n
        invariant
            n == ms@.len(),
            mv == ms@.map_values(|m: Mailbox| m@),
            rendered == mv.map_values(|m: MailboxView| parsed_mailbox_text(m)),
            out@ == start + join(rendered.take(i as int), ", "@),
    {
        proof {
            reveal_strlit(", ");
            lemma_join_push(rendered.take(i as int), ", "@, rendered[i as int]);
            assert(rendered.take(i + 1) =~= rendered.take(i as int).push(rendered[i as int]));
        }
        if i > 0 {
            extend_str(out, ", ");
        }
        write_parsed_mailbox(out, &ms[i]);
        assert(out@ =~= start + join(rendered.take(i + 1), ", "@));
    }
    assert(rendered.take(n as int) =~= rendered);
}

fn write_parsed_group(out: &mut Vec<char>, g: &MailboxGroup)
    ensures
        final(out)@ == old(out)@ + parsed_group_text(g@),
{
    proof {
        reveal_strlit(": ");
        reveal_strlit(";");
    }
    match &g.name {
        Some(n) => extend_str(out, n.as_str()),
        None => {},
    }
    extend_str(out, ": ");
    write_parsed_mailboxes(out, &g.addresses);
    extend_str(out, ";");
    assert(final(out)@ =~= old(out)@ + parsed_group_text(g@));
}

fn write_parsed_groups(out: &mut Vec<char>, gs: &Vec<MailboxGroup>)
    ensures
        final(out)@ == old(out)@ + join(
            gs@.map_values(|g: MailboxGroup| g@).map_values(|g: GroupView| parsed_group_text(g)),
            ", "@,
        ),
{
    let ghost gv = gs@.map_values(|g: MailboxGroup| g@);
    let ghost rendered = gv.map_values(|g: GroupView| parsed_group_text(g));
    let n = gs.len();
    let ghost start = out@;
    for i in 0..n
        invariant
            n == gs@.len(),
            gv == gs@.map_values(|g: MailboxGroup| g@),
            rendered == gv.map_values(|g: GroupView| parsed_group_text(g)),
            out@ == start + join(rendered.take(i as int), ", "@),
    {
        proof {
            reveal_strlit(", ");
            lemma_join_push(rendered.take(i as int), ", "@, rendered[i as int]);
            assert(rendered.take(i + 1) =~= rendered.take(i as int).push(rendered[i as int]));
        }
        if i > 0 {
            extend_str(out, ", ");
        }
        write_parsed_group(out, &gs[i]);
        assert(out@ =~= start + join(rendered.take(i + 1), ", "@));
    }
    assert(rendered.take(n as int) =~= rendered);
}

fn write_text_list(out: &mut Vec<char>, ts: &Vec<String>)
    ensures
        final(out)@ == old(out)@ + join(ts.deep_view(), " "@),
{
    let ghost tv = ts.deep_view();
    let n = ts.len();
    let ghost start = out@;
    for i in 0..n
        invariant
            n == ts@.len(),
            tv == ts.deep_view(),
            out@ == start + join(tv.take(i as int), " "@),
    {
        proof {
            reveal_strlit(" ");
            lemma_join_push(tv.take(i as int), " "@, tv[i as int]);
            assert(tv.take(i + 1) =~= tv.take(i as int).push(tv[i as int]));
        }
        if i > 0 {
            out.push(' ');
        }
        extend_str(out, ts[i].as_str());
        assert(out@ =~= start + join(tv.take(i + 1), " "@));
    }
    assert(tv.take(n as int) =~= tv);
}

/// The textual form of a parsed header value, if it has one.
pub fn header_value_text(h: &ParsedHeader) -> (r: Option<String>)
    ensures
        r.deep_view() == header_text(h@),
{
    let mut out: Vec<char> = Vec::new();
    match h {
        ParsedHeader::Empty => None,
        ParsedHeader::Addresses(ms) => {
            write_parsed_mailboxes(&mut out, ms);
            Some(crate::text::string_of(&out))
        },
        ParsedHeader::Groups(gs) => {
            write_parsed_groups(&mut out, gs);
            Some(crate::text::string_of(&out))
        },
        ParsedHeader::Text(t) => Some(t.clone()),
        ParsedHeader::TextList(ts) => {
            write_text_list(&mut out, ts);
            Some(crate::text::string_of(&out))
        },
        ParsedHeader::Other => None,
    }
}

/// The text body of `m`, empty when it has none.
pub open spec fn body_of(m: &SourceMessage) -> Seq<char> {
    match m.text_body {
        Some(t) => t@,
        None => Seq::<char>::empty(),
    }
}

/// The quoted text of a reply: the text body of the source message
/// without carriage returns, cut before its last signature delimiter
/// (`-- ` on a line of its own) and trimmed.
pub open spec fn reply_thread_text(m: &SourceMessage) -> Seq<char> {
    trim(before_last(remove_cr(body_of(m)), "-- \n"@))
}

/// The quoted text of a reply; see [`reply_thread_text`].
pub fn reply_thread(m: &SourceMessage) -> (r: Vec<char>)
    ensures
        r@ == reply_thread_text(m),
{
    let body = match &m.text_body {
        Some(t) => chars_of(t.as_str()),
        None => Vec::new(),
    };
    let no_cr = remove_carriage_returns(&body);
    let delim = chars_of("-- \n");
    let cut = cut_before_last(&no_cr, &delim);
    trim_chars(&cut)
}

/// The header lines of a forwarded message: `Date` (its raw value,
/// trimmed), `From`, `To`, `Cc` and `Subject`, each when the message has
/// it.
pub open spec fn forward_thread_lines(m: &SourceMessage) -> Seq<(Seq<char>, Seq<char>)> {
    let date: Seq<(Seq<char>, Seq<char>)> = match m.date {
        Some(d) => seq![("Date"@, trim(d@))],
        None => seq![],
    };
    let from: Seq<(Seq<char>, Seq<char>)> = match header_text(m.from@) {
        Some(t) => seq![("From"@, t)],
        None => seq![],
    };
    let to: Seq<(Seq<char>, Seq<char>)> = match header_text(m.to@) {
        Some(t) => seq![("To"@, t)],
        None => seq![],
    };
    let cc: Seq<(Seq<char>, Seq<char>)> = match header_text(m.cc@) {
        Some(t) => seq![("Cc"@, t)],
        None => seq![],
    };
    let subject: Seq<(Seq<char>, Seq<char>)> = match m.subject {
        Some(s) => seq![("Subject"@, s@)],
        None => seq![],
    };
    date + from + to + cc + subject
}

/// A forwarded message as shown in the forward's body: its main header
/// lines, an empty line and its text body without carriage returns, all
/// trimmed.
pub open spec fn forward_thread_text(m: &SourceMessage) -> Seq<char> {
    trim(render_content(forward_thread_lines(m), remove_cr(body_of(m)), seq![]))
}

/// A forwarded message as shown in the forward's body; see
/// [`forward_thread_text`].
pub fn forward_thread(m: &SourceMessage) -> (r: Vec<char>)
    ensures
        r@ == forward_thread_text(m),
{
    let mut lines: Vec<(String, String)> = Vec::new();
    match &m.date {
        Some(d) => {
            let dc = chars_of(d.as_str());
            let t = trim_chars(&dc);
            lines.push(("Date".to_owned(), crate::text::string_of(&t)));
        },
        None => {},
    }
    let ghost l1 = lines.deep_view();
    match header_value_text(&m.from) {
        Some(t) => lines.push(("From".to_owned(), t)),
        None => {},
    }
    let ghost l2 = lines.deep_view();
    match header_value_text(&m.to) {
        Some(t) => lines.push(("To".to_owned(), t)),
        None => {},
    }
    let ghost l3 = lines.deep_view();
    match header_value_text(&m.cc) {
        Some(t) => lines.push(("Cc".to_owned(), t)),
        None => {},
    }
    let ghost l4 = lines.deep_view();
    match &m.subject {
        Some(s) => lines.push(("Subject".to_owned(), s.clone())),
        None => {},
    }
    assert(lines.deep_view() =~= forward_thread_lines(m));
    let body = match &m.text_body {
        Some(t) => chars_of(t.as_str()),
        None => Vec::new(),
    };
    let no_cr = remove_carriage_returns(&body);
    let atts: Vec<crate::template::render::Attachment> = Vec::new();
    assert(atts@.map_values(|a: crate::template::render::Attachment| a@) =~= seq![]);
    let text = render(&lines, &no_cr, &atts);
    let tc = chars_of(text.as_str());
    trim_chars(&tc)
}

} // verus!
