//! Reply template: [`build`] makes the draft that replies to a message.

pub mod cli;

use vstd::prelude::*;

use crate::error::MmlError;
use crate::pattern::{regex_capture, subject_rest};
use crate::template::address::{
    add_header, header_is_empty, is_empty, is_noreply, lemma_add_header_appends,
    lemma_add_header_well_addressed, push_builder_address, render_mailbox, render_recipients,
    single_address, well_addressed, write_mailbox, write_recipients, Recipient, RecipientView,
};
use crate::template::compose::signature_attachments;
use crate::template::forward::captured_or_whole;
use crate::template::message::{HeaderView, ParsedHeader, SourceMessage};
use crate::template::render::{
    base_names, draft_header_names, render, render_content, select_headers, shown_headers,
    Attachment,
};
use crate::template::thread::{reply_thread, reply_thread_text};
use crate::template::types::{part_sep, rows_after, Template, TemplateBody, TemplateCursor};
use crate::text::{
    chars_of, count_nl, extend_chars, extend_str, join, last_line_len, lemma_count_nl_join_lines,
    lemma_count_nl_zero, lemma_lines_facts, lemma_terminate_all_push, lemma_terminate_join,
    lines, lines_of, string_of, terminate_all, total_len,
};

verus! {

/// Pattern whose second group is a subject without its `Re:` prefixes
/// (in any case, with any spacing).
pub const RE_SUBJECT: &'static str = "(?i:\\s*re\\s*:\\s*)*(.*)";

/// The subject without its `Re:` prefixes.
pub fn trim_prefix(subject: &str) -> (r: String)
    ensures
        r@ == captured_or_whole(RE_SUBJECT@, subject@),
        r@ == subject_rest(subject@, seq!['r', 'e']),
{
    match regex_capture(RE_SUBJECT, subject, 1) {
        Some(g) => g,
        None => subject.to_owned(),
    }
}

/// The arguments of [`build`].
#[derive(Clone, Debug, Default, PartialEq, Eq)]
pub struct BuildReplyTemplateArgs {
    pub signature: String,
    pub signature_style: ReplyTemplateSignatureStyle,
    pub posting_style: ReplyTemplatePostingStyle,
    pub quote_headline: String,
    pub from: String,
    pub from_name: String,
    pub reply_all: bool,
    pub headers: Vec<(String, String)>,
    pub body: String,
}

// ---------------------------------------------------------------------------
// Headers
// ---------------------------------------------------------------------------

/// Seen addresses and `To` recipients of a reply from `me` to `msg`: the
/// `Reply-To` mailboxes when there are any; otherwise those of `From` (or
/// of `Sender` when `From` is empty) and of `To`. `me` counts as seen.
pub open spec fn reply_to_recipients(msg: &SourceMessage, me: Seq<char>) -> (
    Seq<Seq<char>>,
    Seq<RecipientView>,
) {
    if !header_is_empty(msg.reply_to@) {
        add_header(seq![me], seq![], msg.reply_to@)
    } else {
        let first = if !header_is_empty(msg.from@) {
            msg.from@
        } else {
            msg.sender@
        };
        let (s, o) = add_header(seq![me], seq![], first);
        add_header(s, o, msg.to@)
    }
}

/// The `Cc` recipients of a reply to all: the `Cc` mailboxes of `msg` not
/// already among the seen addresses; none when not replying to all.
pub open spec fn reply_cc_recipients(msg: &SourceMessage, me: Seq<char>, all: bool) -> Seq<
    RecipientView,
> {
    if all {
        add_header(reply_to_recipients(msg, me).0, seq![], msg.cc@).1
    } else {
        seq![]
    }
}

/// A reply is addressed as it must be: never to its own `From` address
/// `me`, never to an address that takes no replies, and to each address
/// at most once across `To` and `Cc`.
pub proof fn lemma_reply_recipients(msg: &SourceMessage, me: Seq<char>, all: bool)
    ensures
        ({
            let rs = reply_to_recipients(msg, me).1 + reply_cc_recipients(msg, me, all);
            &&& forall|i: int|
                0 <= i < rs.len() ==> (#[trigger] single_address(rs[i]) matches Some(e) ==> e != me
                    && !is_noreply(e))
            &&& forall|i: int, j: int|
                0 <= i < j < rs.len() && (#[trigger] single_address(rs[i])) is Some ==> single_address(
                    rs[i],
                ) != #[trigger] single_address(rs[j])
        }),
{
    let start: Seq<Seq<char>> = seq![me];
    assert(start[0] == me);
    assert(well_addressed(start, seq![], me));
    if !header_is_empty(msg.reply_to@) {
        lemma_add_header_well_addressed(start, seq![], msg.reply_to@, me);
    } else {
        let first = if !header_is_empty(msg.from@) {
            msg.from@
        } else {
            msg.sender@
        };
        lemma_add_header_well_addressed(start, seq![], first, me);
        let (s, o) = add_header(start, seq![], first);
        lemma_add_header_well_addressed(s, o, msg.to@, me);
    }
    let (seen, to) = reply_to_recipients(msg, me);
    assert(well_addressed(seen, to, me));
    if all {
        lemma_add_header_well_addressed(seen, to, msg.cc@, me);
        lemma_add_header_appends(seen, to, msg.cc@);
    } else {
        assert(to + Seq::<RecipientView>::empty() =~= to);
    }
    let rs = to + reply_cc_recipients(msg, me, all);
    let fin = if all {
        add_header(seen, to, msg.cc@).0
    } else {
        seen
    };
    assert(well_addressed(fin, rs, me));
}

/// A message id as written in `In-Reply-To`.
pub open spec fn bracketed(id: Seq<char>) -> Seq<char> {
    "<"@ + id + ">"@
}

/// The `In-Reply-To` value of a reply: the message id(s) of the source
/// message, when its `Message-ID` is a text or a list of texts.
pub open spec fn in_reply_to(h: HeaderView) -> Option<Seq<char>> {
    match h {
        HeaderView::Text(id) => Some(bracketed(id)),
        HeaderView::TextList(ids) => Some(join(ids.map_values(|id: Seq<char>| bracketed(id)), " "@)),
        _ => None,
    }
}

/// The subject of a reply to `msg`.
pub open spec fn reply_subject(msg: &SourceMessage) -> Seq<char> {
    let subject = match msg.subject {
        Some(s) => s@,
        None => Seq::<char>::empty(),
    };
    "Re: "@ + captured_or_whole(RE_SUBJECT@, subject)
}

/// The headers of a reply before selection: `In-Reply-To` (when the
/// source has a message id), `From`, `To`, `Cc` (when there are `Cc`
/// recipients), `Subject`, then the custom headers.
pub open spec fn reply_pool(msg: &SourceMessage, args: BuildReplyTemplateArgs) -> Seq<
    (Seq<char>, Seq<char>),
> {
    let irt: Seq<(Seq<char>, Seq<char>)> = match in_reply_to(msg.message_id_header@) {
        Some(v) => seq![("In-Reply-To"@, v)],
        None => seq![],
    };
    let cc = reply_cc_recipients(msg, args.from@, args.reply_all);
    let cc_line: Seq<(Seq<char>, Seq<char>)> = if cc.len() > 0 {
        seq![("Cc"@, render_recipients(cc))]
    } else {
        seq![]
    };
    irt + seq![
        ("From"@, render_mailbox(Some(args.from_name@), args.from@)),
        ("To"@, render_recipients(reply_to_recipients(msg, args.from@).1)),
    ] + cc_line + seq![("Subject"@, reply_subject(msg))] + args.headers.deep_view()
}

/// The row of the last header line: one per header the reply sets,
/// counting each custom header.
pub open spec fn reply_header_rows(msg: &SourceMessage, args: BuildReplyTemplateArgs) -> int {
    (if in_reply_to(msg.message_id_header@) is Some {
        1int
    } else {
        0int
    }) + 2 + (if reply_cc_recipients(msg, args.from@, args.reply_all).len() > 0 {
        1int
    } else {
        0int
    }) + 1 + args.headers@.len()
}

// ---------------------------------------------------------------------------
// Body
// ---------------------------------------------------------------------------

/// A quoted line: `>`, a space unless the line is itself a quote, then
/// the line.
pub open spec fn quote_line(l: Seq<char>) -> Seq<char> {
    seq!['>'] + (if l.len() > 0 && l[0] == '>' {
        Seq::<char>::empty()
    } else {
        seq![' ']
    }) + l
}

/// The quoted lines of `q`.
pub open spec fn quoted_lines(q: Seq<char>) -> Seq<Seq<char>> {
    lines(q).map_values(|l: Seq<char>| quote_line(l))
}

/// `q` quoted line by line.
pub open spec fn quote(q: Seq<char>) -> Seq<char> {
    join(quoted_lines(q), seq!['\n'])
}

/// The parts of a reply's body, `q` being the quoted text: bottom
/// posting, the headline and the quote come first; then the body
/// (interleaved posting, only when not empty); the signature above the
/// quote; top or interleaved posting, the quote (top posting, after the
/// headline); the signature below the quote.
pub open spec fn reply_parts(q: Seq<char>, args: BuildReplyTemplateArgs) -> Seq<Seq<char>> {
    let bottom = args.posting_style == ReplyTemplatePostingStyle::Bottom;
    let top = args.posting_style == ReplyTemplatePostingStyle::Top;
    let inter = args.posting_style == ReplyTemplatePostingStyle::Interleaved;
    let sig = args.signature@;
    let p1: Seq<Seq<char>> = if q.len() > 0 && bottom {
        seq![args.quote_headline@ + quote(q)]
    } else {
        seq![]
    };
    let p2: Seq<Seq<char>> = if !inter || args.body@.len() > 0 {
        seq![args.body@]
    } else {
        seq![]
    };
    let p3: Seq<Seq<char>> = if args.signature_style == ReplyTemplateSignatureStyle::AboveQuote
        && sig.len() > 0 {
        seq![sig]
    } else {
        seq![]
    };
    let headline = if top && args.quote_headline@.len() > 0 {
        args.quote_headline@
    } else {
        Seq::<char>::empty()
    };
    let p4: Seq<Seq<char>> = if q.len() > 0 && !bottom {
        seq![headline + quote(q)]
    } else {
        seq![]
    };
    let p5: Seq<Seq<char>> = if args.signature_style == ReplyTemplateSignatureStyle::BelowQuote
        && sig.len() > 0 {
        seq![sig]
    } else {
        seq![]
    };
    p1 + p2 + p3 + p4 + p5
}

/// Where the cursor of a reply is, `h` being the row of the last header
/// line. Top and bottom posting: at the end of the body. Interleaved
/// posting: the cursor follows the end of each part, moves back to the
/// start of the quote once the quote is written, and moves on by the
/// rows of the signature below the quote if there is one.
pub open spec fn reply_cursor(q: Seq<char>, args: BuildReplyTemplateArgs, h: int) -> (int, int) {
    let parts = reply_parts(q, args);
    if args.posting_style != ReplyTemplatePostingStyle::Interleaved {
        let k = if q.len() > 0 && args.posting_style == ReplyTemplatePostingStyle::Bottom {
            2int
        } else {
            1int
        };
        (rows_after(h, parts.take(k)), last_line_len(args.body@) as int)
    } else {
        let back = if q.len() > 0 {
            lines(q).len() - 1
        } else {
            0int
        };
        let col = if args.signature_style == ReplyTemplateSignatureStyle::BelowQuote
            && args.signature@.len() > 0 {
            last_line_len(args.signature@) as int
        } else if q.len() > 0 {
            0int
        } else if parts.len() > 0 {
            last_line_len(parts.last()) as int
        } else {
            0int
        };
        (rows_after(h, parts) - back, col)
    }
}

/// The MML content of a reply to `msg`.
pub open spec fn reply_content(msg: &SourceMessage, args: BuildReplyTemplateArgs) -> Seq<char> {
    render_content(
        shown_headers(reply_pool(msg, args), base_names()),
        join(reply_parts(reply_thread_text(msg), args), part_sep()),
        signature_attachments(
            args.signature@,
            args.signature_style == ReplyTemplateSignatureStyle::Attached,
            "text/plain"@,
            "signature.txt"@,
        ),
    )
}

/// The sizes a reply is built from fit in memory.
pub open spec fn reply_fits(msg: &SourceMessage, args: BuildReplyTemplateArgs) -> bool {
    20 + args.headers@.len() + args.body@.len() + 2 * args.signature@.len()
        + args.quote_headline@.len() + 3 * reply_thread_text(msg).len() <= usize::MAX
}

proof fn lemma_quote_facts(q: Seq<char>)
    requires
        q.len() > 0,
    ensures
        quote(q).len() + 1 <= 3 * (q.len() + 1),
        count_nl(quote(q)) + 1 == lines(q).len(),
        lines(q).len() > 0,
{
    lemma_lines_facts(q);
    let ls = lines(q);
    let qs = quoted_lines(q);
    assert forall|k: int| 0 <= k < qs.len() implies count_nl(#[trigger] qs[k]) == 0 by {
        let l = ls[k];
        assert(qs[k] == quote_line(l));
        assert forall|j: int| 0 <= j < qs[k].len() implies qs[k][j] != '\n' by {
            if qs[k].len() > l.len() + 1 {
                if j >= 2 {
                    assert(qs[k][j] == l[j - 2]);
                }
            } else {
                if j >= 1 {
                    assert(qs[k][j] == l[j - 1]);
                }
            }
        }
        lemma_count_nl_zero(qs[k]);
    }
    lemma_count_nl_join_lines(qs);
    lemma_quote_len(ls);
    lemma_terminate_join(qs, '\n');
}

proof fn lemma_quote_len(ls: Seq<Seq<char>>)
    ensures
        terminate_all(ls.map_values(|l: Seq<char>| quote_line(l)), seq!['\n']).len() <= 3
            * total_len(ls),
    decreases ls.len(),
{
    if ls.len() > 0 {
        lemma_quote_len(ls.drop_last());
        assert(ls.map_values(|l: Seq<char>| quote_line(l)).drop_last() =~= ls.drop_last().map_values(
            |l: Seq<char>| quote_line(l),
        ));
    }
}

/// Pushes `q` quoted line by line to the buffer of `body`; returns the
/// number of lines.
fn push_quote(body: &mut TemplateBody, q: &[char]) -> (n: usize)
    requires
        q@.len() > 0,
    ensures
        final(body).buffer() == old(body).buffer() + quote(q@),
        final(body).parts() == old(body).parts(),
        final(body).cursor == old(body).cursor,
        n == lines(q@).len(),
{
    let ls = lines_of(q);
    let n = ls.len();
    let ghost qs = quoted_lines(q@);
    let ghost start = body.buffer();
    proof {
        lemma_quote_facts(q@);
    }
    for i in 0..n
        invariant
            n == ls@.len(),
            n == lines(q@).len(),
            forall|k: int| 0 <= k < ls@.len() ==> #[trigger] ls@[k]@ == lines(q@)[k],
            qs == quoted_lines(q@),
            body.buffer() == start + terminate_all(qs.take(i as int), seq!['\n']),
            body.parts() == old(body).parts(),
            body.cursor == old(body).cursor,
    {
        proof {
            lemma_terminate_all_push(qs.take(i as int), seq!['\n'], qs[i as int]);
            assert(qs.take(i + 1) =~= qs.take(i as int).push(qs[i as int]));
        }
        let line = &ls[i];
        body.push('>');
        if !(line.len() > 0 && line[0] == '>') {
            body.push(' ');
        }
        body.push_chars(line);
        body.push('\n');
        assert(body.buffer() =~= start + terminate_all(qs.take(i + 1), seq!['\n']));
    }
    assert(qs.take(n as int) =~= qs);
    proof {
        lemma_terminate_join(qs, '\n');
    }
    body.pop();
    assert(body.buffer() =~= start + quote(q@));
    n
}

/// The headers of a reply to `msg` before selection, and the row of the
/// last header line.
fn reply_headers(msg: &SourceMessage, args: &BuildReplyTemplateArgs) -> (r: (
    Vec<(String, String)>,
    usize,
))
    requires
        args.headers@.len() + 16 <= usize::MAX,
    ensures
        r.0.deep_view() == reply_pool(msg, *args),
        r.1 == reply_header_rows(msg, *args),
{
    // Recipients
    let mut seen: Vec<String> = Vec::new();
    seen.push(args.from.clone());
    let mut to_rcpts: Vec<Recipient> = Vec::new();
    assert(seen.deep_view() =~= seq![args.from@]);
    assert(to_rcpts@.map_values(|r: Recipient| r@) =~= Seq::<RecipientView>::empty());
    if !is_empty(&msg.reply_to) {
        push_builder_address(&mut seen, &mut to_rcpts, &msg.reply_to);
    } else {
        let first = if !is_empty(&msg.from) {
            &msg.from
        } else {
            &msg.sender
        };
        push_builder_address(&mut seen, &mut to_rcpts, first);
        push_builder_address(&mut seen, &mut to_rcpts, &msg.to);
    }
    assert(seen.deep_view() == reply_to_recipients(msg, args.from@).0);
    assert(to_rcpts@.map_values(|r: Recipient| r@) == reply_to_recipients(msg, args.from@).1);
    let mut cc_rcpts: Vec<Recipient> = Vec::new();
    assert(cc_rcpts@.map_values(|r: Recipient| r@) =~= Seq::<RecipientView>::empty());
    if args.reply_all {
        push_builder_address(&mut seen, &mut cc_rcpts, &msg.cc);
    }
    assert(cc_rcpts@.map_values(|r: Recipient| r@) == reply_cc_recipients(
        msg,
        args.from@,
        args.reply_all,
    ));

    let mut pool: Vec<(String, String)> = Vec::new();
    let mut rows: usize = 0;
    match &msg.message_id_header {
        ParsedHeader::Text(id) => {
            proof {
                reveal_strlit("<");
                reveal_strlit(">");
            }
            let mut v = chars_of("<");
            extend_str(&mut v, id.as_str());
            extend_str(&mut v, ">");
            assert(v@ =~= bracketed(id@));
            pool.push(("In-Reply-To".to_owned(), string_of(&v)));
            rows = rows + 1;
        },
        ParsedHeader::TextList(ids) => {
            let mut v: Vec<char> = Vec::new();
            let n = ids.len();
            let ghost bv = ids.deep_view().map_values(|id: Seq<char>| bracketed(id));
            for i in 0..n
                invariant
                    n == ids@.len(),
                    bv == ids.deep_view().map_values(|id: Seq<char>| bracketed(id)),
                    v@ == join(bv.take(i as int), " "@),
            {
                proof {
                    reveal_strlit("<");
                    reveal_strlit(">");
                    reveal_strlit(" ");
                    crate::text::lemma_join_push(bv.take(i as int), " "@, bv[i as int]);
                    assert(bv.take(i + 1) =~= bv.take(i as int).push(bv[i as int]));
                }
                let ghost before = v@;
                if i > 0 {
                    v.push(' ');
                }
                v.push('<');
                extend_str(&mut v, ids[i].as_str());
                v.push('>');
                assert(bv[i as int] == bracketed(ids@[i as int]@));
                assert(v@ =~= join(bv.take(i + 1), " "@));
            }
            assert(bv.take(n as int) =~= bv);
            pool.push(("In-Reply-To".to_owned(), string_of(&v)));
            rows = rows + 1;
        },
        _ => {},
    }
    let ghost irt = pool.deep_view();
    let mut from_value: Vec<char> = Vec::new();
    write_mailbox(&mut from_value, &Some(args.from_name.clone()), args.from.as_str());
    pool.push(("From".to_owned(), string_of(&from_value)));
    let mut to_value: Vec<char> = Vec::new();
    write_recipients(&mut to_value, &to_rcpts);
    pool.push(("To".to_owned(), string_of(&to_value)));
    rows = rows + 2;
    let ghost with_to = pool.deep_view();
    if cc_rcpts.len() > 0 {
        let mut cc_value: Vec<char> = Vec::new();
        write_recipients(&mut cc_value, &cc_rcpts);
        pool.push(("Cc".to_owned(), string_of(&cc_value)));
        rows = rows + 1;
    }
    let ghost with_cc = pool.deep_view();
    let subject = match &msg.subject {
        Some(s) => {
            let t = trim_prefix(s.as_str());
            assert(t@ == captured_or_whole(RE_SUBJECT@, s@));
            t
        },
        None => {
            let t = trim_prefix("");
            proof {
                reveal_strlit("");
            }
            assert(""@ == Seq::<char>::empty());
            t
        },
    };
    let mut subject_chars = chars_of("Re: ");
    extend_str(&mut subject_chars, subject.as_str());
    assert(subject_chars@ == reply_subject(msg));
    pool.push(("Subject".to_owned(), string_of(&subject_chars)));
    rows = rows + 1;
    let ghost pool0 = pool.deep_view();
    let nh = args.headers.len();
    let ghost hv = args.headers.deep_view();
    for i in 0..nh
        invariant
            nh == args.headers@.len(),
            hv == args.headers.deep_view(),
            pool.deep_view() == pool0 + hv.take(i as int),
    {
        let ghost before = pool.deep_view();
        pool.push((args.headers[i].0.clone(), args.headers[i].1.clone()));
        assert(pool.deep_view() =~= before.push(hv[i as int]));
        assert(pool0 + hv.take(i + 1) =~= (pool0 + hv.take(i as int)).push(hv[i as int]));
    }
    assert(hv.take(nh as int) =~= hv);
    assert(pool.deep_view() =~= reply_pool(msg, *args));
    rows = rows + nh;
    (pool, rows)
}

/// Flushes the buffer of `body`, the bound on its cursor row permitting.
fn flush_part(body: &mut TemplateBody, Ghost(budget): Ghost<int>)
    requires
        old(body).cursor.row + 2 + old(body).buffer().len() <= budget,
        budget <= usize::MAX,
    ensures
        final(body).parts() == old(body).parts().push(old(body).buffer()),
        final(body).buffer() == Seq::<char>::empty(),
        final(body).cursor.locked == old(body).cursor.locked,
        old(body).cursor.locked ==> final(body).cursor == old(body).cursor,
        !old(body).cursor.locked ==> final(body).cursor.row == old(body).cursor.row + 2 + count_nl(
            old(body).buffer(),
        ) && final(body).cursor.col == last_line_len(old(body).buffer()),
        final(body).cursor.row <= old(body).cursor.row + 2 + old(body).buffer().len(),
{
    proof {
        crate::text::lemma_count_nl_le(body.buffer());
    }
    body.flush();
}

proof fn lemma_rows_after_push(h: int, ps: Seq<Seq<char>>, p: Seq<char>)
    ensures
        rows_after(h, ps.push(p)) == rows_after(h, ps) + 2 + count_nl(p),
{
    assert(ps.push(p).drop_last() =~= ps);
}

/// The body of a reply, `q` being the quoted text and `h` the row of the
/// last header line.
#[verifier::rlimit(50)]
fn reply_body(q: &Vec<char>, args: &BuildReplyTemplateArgs, h: usize) -> (body: TemplateBody)
    requires
        h + 15 + args.body@.len() + 2 * args.signature@.len() + args.quote_headline@.len() + 3
            * q@.len() <= usize::MAX,
    ensures
        body.parts() == reply_parts(q@, *args),
        (body.cursor.row as int, body.cursor.col as int) == reply_cursor(q@, *args, h as int),
{
    let ghost budget: int = h + 15 + args.body@.len() + 2 * args.signature@.len()
        + args.quote_headline@.len() + 3 * q@.len();
    let has_q = q.len() > 0;
    let bottom = args.posting_style.is_bottom();
    let interleaved = args.posting_style.is_interleaved();
    let top = args.posting_style.is_top();
    let signature_nonempty = args.signature.as_str().unicode_len() > 0;
    let ghost sig = args.signature@;
    let ghost quoted = quote(q@);
    let ghost back: int = if has_q { lines(q@).len() - 1 } else { 0 };
    proof {
        if has_q {
            lemma_quote_facts(q@);
        }
    }
    let mut body = TemplateBody::new(TemplateCursor::new(h, 0));
    // spent: what the parts flushed so far may add to the row
    let ghost mut spent: int = 0;

    // 1. bottom posting: headline and quote
    if has_q && bottom {
        body.push_str(args.quote_headline.as_str());
        push_quote(&mut body, q);
        assert(body.buffer() == args.quote_headline@ + quoted);
        proof {
            lemma_rows_after_push(h as int, Seq::<Seq<char>>::empty(), body.buffer());
        }
        flush_part(&mut body, Ghost(budget));
        proof {
            spent = spent + 2 + args.quote_headline@.len() + quoted.len();
        }
    }
    let ghost p1 = body.parts();
    assert(body.cursor.row <= h + spent);
    assert(!body.cursor.locked);
    assert(body.cursor.row == rows_after(h as int, p1));

    // 2. the body
    if interleaved {
        if args.body.as_str().unicode_len() > 0 {
            body.push_str(args.body.as_str());
            proof {
                lemma_rows_after_push(h as int, p1, args.body@);
            }
            flush_part(&mut body, Ghost(budget));
            proof {
                spent = spent + 2 + args.body@.len();
            }
        }
    } else {
        body.push_str(args.body.as_str());
        proof {
            lemma_rows_after_push(h as int, p1, args.body@);
        }
        flush_part(&mut body, Ghost(budget));
        proof {
            spent = spent + 2 + args.body@.len();
        }
        body.cursor.lock();
    }
    let ghost p2 = body.parts();
    let ghost c2 = body.cursor;
    assert(body.cursor.row <= h + spent);
    assert(!interleaved ==> body.cursor.locked && body.cursor.row == rows_after(h as int, p2)
        && body.cursor.col == last_line_len(args.body@));
    assert(interleaved ==> !body.cursor.locked && body.cursor.row == rows_after(h as int, p2));

    // 3. signature above the quote
    if args.signature_style.is_above_quote() && signature_nonempty {
        body.push_str(args.signature.as_str());
        proof {
            lemma_rows_after_push(h as int, p2, sig);
        }
        flush_part(&mut body, Ghost(budget));
        proof {
            spent = spent + 2 + sig.len();
        }
    }
    let ghost p3 = body.parts();
    assert(body.cursor.row <= h + spent);
    assert(!interleaved ==> body.cursor == c2);
    assert(interleaved ==> !body.cursor.locked && body.cursor.row == rows_after(h as int, p3));

    // 4. top or interleaved posting: the quote
    if has_q && !bottom {
        let ghost headline: Seq<char> = if top && args.quote_headline@.len() > 0 {
            args.quote_headline@
        } else {
            Seq::<char>::empty()
        };
        if top && args.quote_headline.as_str().unicode_len() > 0 {
            body.push_str(args.quote_headline.as_str());
        }
        let lines_count = push_quote(&mut body, q);
        assert(body.buffer() == headline + quoted);
        proof {
            lemma_rows_after_push(h as int, p3, headline + quoted);
        }
        flush_part(&mut body, Ghost(budget));
        proof {
            spent = spent + 2 + headline.len() + quoted.len();
        }
        if interleaved {
            assert(body.cursor.row >= lines_count - 1);
            body.cursor.row = body.cursor.row - (lines_count - 1);
            body.cursor.col = 0;
        }
    }
    let ghost p4 = body.parts();
    assert(body.cursor.row <= h + spent);
    assert(!interleaved ==> body.cursor == c2);
    assert(interleaved ==> !body.cursor.locked && body.cursor.row == rows_after(h as int, p4) - back);

    // 5. signature below the quote
    if args.signature_style.is_below_quote() && signature_nonempty {
        body.push_str(args.signature.as_str());
        proof {
            lemma_rows_after_push(h as int, p4, sig);
        }
        flush_part(&mut body, Ghost(budget));
    }
    assert(body.parts() =~= reply_parts(q@, *args));
    proof {
        if !interleaved {
            let k: int = if has_q && bottom { 2 } else { 1 };
            assert(reply_parts(q@, *args).take(k) =~= p2);
        }
    }
    body
}

/// Builds the draft that replies to `msg`.
///
/// Headers: `In-Reply-To` (the source's message id, when it has one),
/// `From` (display name and address), `To` (the `Reply-To` mailboxes if
/// any, else those of `From`, or `Sender` when `From` is empty, then
/// those of `To`), `Cc` (replying to all: the source's `Cc` mailboxes
/// not already addressed), `Subject` (`Re: ` and the source subject
/// without its `Re:` prefixes). The reply's own address, addresses seen
/// before and "no reply" addresses are left out.
///
/// Body: see [`reply_parts`]; the quoted text is the source's text body
/// without its signature, each line prefixed with `>`. The signature is
/// attached as `signature.txt` when its style says so. The cursor is
/// placed as [`reply_cursor`] says.
pub fn build(msg: &SourceMessage, args: BuildReplyTemplateArgs) -> (r: Result<Template, MmlError>)
    requires
        reply_fits(msg, args),
    ensures
        r matches Ok(t) && t.content@ == reply_content(msg, args) && (t.cursor.row as int, t.cursor.col as int)
            == reply_cursor(reply_thread_text(msg), args, reply_header_rows(msg, args))
            && !t.cursor.locked,
{
    let q = reply_thread(msg);
    let (pool, rows) = reply_headers(msg, &args);
    assert(rows <= 5 + args.headers@.len());
    let names = draft_header_names();
    let shown = select_headers(&pool, &names);
    let body = reply_body(&q, &args, rows);
    let text = body.text_chars();
    let mut atts: Vec<Attachment> = Vec::new();
    if args.signature_style.is_attached() && args.signature.as_str().unicode_len() > 0 {
        atts.push(
            Attachment {
                content_type: "text/plain".to_owned(),
                filename: "signature.txt".to_owned(),
                data: args.signature.clone(),
            },
        );
    }
    assert(atts@.map_values(|a: Attachment| a@) =~= signature_attachments(
        args.signature@,
        args.signature_style == ReplyTemplateSignatureStyle::Attached,
        "text/plain"@,
        "signature.txt"@,
    ));
    let content = render(&shown, &text, &atts);
    Ok(Template::new_with_cursor(content, (body.cursor.row, body.cursor.col)))
}

/// Where a reply goes relative to the quoted message.
#[derive(Clone, Copy, Debug, Default, PartialEq, Eq)]
pub enum ReplyTemplatePostingStyle {
    /// Above the quote.
    #[default]
    Top,
    /// Below the quote.
    Bottom,
    /// Within the quote, the cursor at its start.
    Interleaved,
}

impl ReplyTemplatePostingStyle {
    pub fn is_top(&self) -> (r: bool)
        ensures
            r == (*self == ReplyTemplatePostingStyle::Top),
    {
        match self {
            ReplyTemplatePostingStyle::Top => true,
            _ => false,
        }
    }

    pub fn is_bottom(&self) -> (r: bool)
        ensures
            r == (*self == ReplyTemplatePostingStyle::Bottom),
    {
        match self {
            ReplyTemplatePostingStyle::Bottom => true,
            _ => false,
        }
    }

    pub fn is_interleaved(&self) -> (r: bool)
        ensures
            r == (*self == ReplyTemplatePostingStyle::Interleaved),
    {
        match self {
            ReplyTemplatePostingStyle::Interleaved => true,
            _ => false,
        }
    }

    /// The name of the style, as written in the configuration.
    pub fn name(&self) -> (r: &'static str)
        ensures
            r@ == match self {
                ReplyTemplatePostingStyle::Top => "top"@,
                ReplyTemplatePostingStyle::Bottom => "bottom"@,
                ReplyTemplatePostingStyle::Interleaved => "interleaved"@,
            },
    {
        match self {
            ReplyTemplatePostingStyle::Top => "top",
            ReplyTemplatePostingStyle::Bottom => "bottom",
            ReplyTemplatePostingStyle::Interleaved => "interleaved",
        }
    }
}

/// How the signature of a reply is placed.
#[derive(Clone, Copy, Debug, Default, PartialEq, Eq)]
pub enum ReplyTemplateSignatureStyle {
    /// Between the body and the quote.
    AboveQuote,
    /// After the quote.
    #[default]
    BelowQuote,
    /// As an attachment.
    Attached,
    /// Left out.
    Hidden,
}

impl ReplyTemplateSignatureStyle {
    pub fn is_above_quote(&self) -> (r: bool)
        ensures
            r == (*self == ReplyTemplateSignatureStyle::AboveQuote),
    {
        match self {
            ReplyTemplateSignatureStyle::AboveQuote => true,
            _ => false,
        }
    }

    pub fn is_below_quote(&self) -> (r: bool)
        ensures
            r == (*self == ReplyTemplateSignatureStyle::BelowQuote),
    {
        match self {
            ReplyTemplateSignatureStyle::BelowQuote => true,
            _ => false,
        }
    }

    pub fn is_attached(&self) -> (r: bool)
        ensures
            r == (*self == ReplyTemplateSignatureStyle::Attached),
    {
        match self {
            ReplyTemplateSignatureStyle::Attached => true,
            _ => false,
        }
    }

    pub fn is_hidden(&self) -> (r: bool)
        ensures
            r == (*self == ReplyTemplateSignatureStyle::Hidden),
    {
        match self {
            ReplyTemplateSignatureStyle::Hidden => true,
            _ => false,
        }
    }

    /// The name of the style, as written in the configuration.
    pub fn name(&self) -> (r: &'static str)
        ensures
            r@ == match self {
                ReplyTemplateSignatureStyle::AboveQuote => "above-quote"@,
                ReplyTemplateSignatureStyle::BelowQuote => "below-quote"@,
                ReplyTemplateSignatureStyle::Attached => "attached"@,
                ReplyTemplateSignatureStyle::Hidden => "hidden"@,
            },
    {
        match self {
            ReplyTemplateSignatureStyle::AboveQuote => "above-quote",
            ReplyTemplateSignatureStyle::BelowQuote => "below-quote",
            ReplyTemplateSignatureStyle::Attached => "attached",
            ReplyTemplateSignatureStyle::Hidden => "hidden",
        }
    }
}

} // verus!
