//! Recipients of a reply: which mailboxes of the source message's address
//! headers a reply is addressed to, without duplicates and without
//! "no reply" addresses, and how they are written in a header.

use vstd::prelude::*;

use crate::pattern::{noreply_matches, regex_is_match};
use crate::template::message::{GroupView, ParsedHeader, HeaderView, Mailbox, MailboxView};
use crate::text::{extend_chars, extend_str, join, lemma_join_push};

verus! {

/// Pattern of the addresses that do not take replies: `noreply`,
/// `no_reply`, `do-not.reply` and the like, in any case.
pub const NO_REPLY: &'static str = "(?i:not?[_\\-\\.]?reply)";

/// `email` is an address that does not take replies: [`NO_REPLY`]
/// matches in it (see [`noreply_matches`]).
pub open spec fn is_noreply(email: Seq<char>) -> bool {
    noreply_matches(email)
}

/// A recipient of the draft: a mailbox, or a named group of mailboxes.
#[derive(Clone, Debug, PartialEq, Eq)]
pub enum Recipient {
    Single { name: Option<String>, email: String },
    Group { group: String, members: Vec<(Option<String>, String)> },
}

/// Mathematical value of a [`Recipient`].
pub enum RecipientView {
    Single(Option<Seq<char>>, Seq<char>),
    Group(Seq<char>, Seq<(Option<Seq<char>>, Seq<char>)>),
}

impl View for Recipient {
    type V = RecipientView;

    open spec fn view(&self) -> RecipientView {
        match self {
            Recipient::Single { name, email } => RecipientView::Single(name.deep_view(), email@),
            Recipient::Group { group, members } => RecipientView::Group(
                group@,
                members@.map_values(|m: (Option<String>, String)| (m.0.deep_view(), m.1@)),
            ),
        }
    }
}

/// The header holds no mailbox and no group.
pub open spec fn header_is_empty(h: HeaderView) -> bool {
    match h {
        HeaderView::Addresses(v) => v.len() == 0,
        HeaderView::Groups(v) => v.len() == 0,
        HeaderView::Empty => true,
        _ => false,
    }
}

/// The header holds no mailbox and no group.
pub fn is_empty(header: &ParsedHeader) -> (r: bool)
    ensures
        r == header_is_empty(header@),
{
    match header {
        ParsedHeader::Addresses(v) => v.len() == 0,
        ParsedHeader::Groups(v) => v.len() == 0,
        ParsedHeader::Empty => true,
        _ => false,
    }
}

/// The members of a group that have an address, with their names.
pub open spec fn group_members(ms: Seq<MailboxView>) -> Seq<(Option<Seq<char>>, Seq<char>)>
    decreases ms.len(),
{
    if ms.len() == 0 {
        seq![]
    } else {
        let rest = group_members(ms.drop_last());
        match ms.last().address {
            Some(e) => rest.push((ms.last().name, e)),
            None => rest,
        }
    }
}

/// Seen addresses and recipients after adding the mailboxes `ms` to
/// `seen` and `out`: a mailbox with an address is added when its address
/// takes replies and was not seen yet.
pub open spec fn add_mailboxes(
    seen: Seq<Seq<char>>,
    out: Seq<RecipientView>,
    ms: Seq<MailboxView>,
) -> (Seq<Seq<char>>, Seq<RecipientView>)
    decreases ms.len(),
{
    if ms.len() == 0 {
        (seen, out)
    } else {
        let (s, o) = add_mailboxes(seen, out, ms.drop_last());
        let m = ms.last();
        match m.address {
            Some(e) => if is_noreply(e) || s.contains(e) {
                (s, o)
            } else {
                (s.push(e), o.push(RecipientView::Single(m.name, e)))
            },
            None => (s, o),
        }
    }
}

/// Seen names and recipients after adding the groups `gs`: a named group
/// is added, with all its members that have an address, when its name
/// was not seen yet.
pub open spec fn add_groups(
    seen: Seq<Seq<char>>,
    out: Seq<RecipientView>,
    gs: Seq<GroupView>,
) -> (Seq<Seq<char>>, Seq<RecipientView>)
    decreases gs.len(),
{
    if gs.len() == 0 {
        (seen, out)
    } else {
        let (s, o) = add_groups(seen, out, gs.drop_last());
        let g = gs.last();
        match g.name {
            Some(n) => if s.contains(n) {
                (s, o)
            } else {
                (s.push(n), o.push(RecipientView::Group(n, group_members(g.addresses))))
            },
            None => (s, o),
        }
    }
}

/// Seen addresses and recipients after adding those of `header`.
pub open spec fn add_header(seen: Seq<Seq<char>>, out: Seq<RecipientView>, header: HeaderView) -> (
    Seq<Seq<char>>,
    Seq<RecipientView>,
) {
    match header {
        HeaderView::Addresses(ms) => add_mailboxes(seen, out, ms),
        HeaderView::Groups(gs) => add_groups(seen, out, gs),
        _ => (seen, out),
    }
}

/// Whether `seen` holds `s`.
fn contains_string(seen: &Vec<String>, s: &String) -> (r: bool)
    ensures
        r == seen.deep_view().contains(s@),
{
    let n = seen.len();
    for i in 0..n
        invariant
            n == seen@.len(),
            forall|j: int| 0 <= j < i ==> seen@[j]@ != s@,
    {
        if seen[i] == *s {
            assert(seen.deep_view()[i as int] == s@);
            return true;
        }
    }
    assert forall|j: int| 0 <= j < seen.deep_view().len() implies seen.deep_view()[j] != s@ by {
        assert(seen.deep_view()[j] == seen@[j]@);
    }
    false
}

fn members_of(ms: &Vec<Mailbox>) -> (r: Vec<(Option<String>, String)>)
    ensures
        r@.map_values(|m: (Option<String>, String)| (m.0.deep_view(), m.1@)) == group_members(
            ms@.map_values(|m: Mailbox| m@),
        ),
{
    let mut r: Vec<(Option<String>, String)> = Vec::new();
    let n = ms.len();
    let ghost msv = ms@.map_values(|m: Mailbox| m@);
    for i in 0..n
        invariant
            n == ms@.len(),
            msv == ms@.map_values(|m: Mailbox| m@),
            r@.map_values(|m: (Option<String>, String)| (m.0.deep_view(), m.1@)) == group_members(
                msv.take(i as int),
            ),
    {
        assert(msv.take(i + 1).drop_last() =~= msv.take(i as int));
        let ghost before = r@;
        match &ms[i].address {
            Some(e) => {
                r.push((ms[i].name.clone(), e.clone()));
                assert(r@.map_values(|m: (Option<String>, String)| (m.0.deep_view(), m.1@))
                    =~= before.map_values(|m: (Option<String>, String)| (m.0.deep_view(), m.1@)).push(
                    (msv[i as int].name, e@),
                ));
            },
            None => {},
        }
    }
    assert(msv.take(n as int) =~= msv);
    r
}

/// Adds to `all_addrs` the recipients of `header` not seen yet (those in
/// `all_emails`), and records their addresses (or group names) as seen.
/// Mailboxes without an address and unnamed groups are skipped, and so
/// are mailboxes whose address matches [`NO_REPLY`].
pub fn push_builder_address(
    all_emails: &mut Vec<String>,
    all_addrs: &mut Vec<Recipient>,
    header: &ParsedHeader,
)
    ensures
        (final(all_emails).deep_view(), final(all_addrs)@.map_values(|r: Recipient| r@))
            == add_header(
            old(all_emails).deep_view(),
            old(all_addrs)@.map_values(|r: Recipient| r@),
            header@,
        ),
{
    match header {
        ParsedHeader::Addresses(ms) => {
            let n = ms.len();
            let ghost msv = ms@.map_values(|m: Mailbox| m@);
            for i in 0..n
                invariant
                    n == ms@.len(),
                    msv == ms@.map_values(|m: Mailbox| m@),
                    (all_emails.deep_view(), all_addrs@.map_values(|r: Recipient| r@))
                        == add_mailboxes(
                        old(all_emails).deep_view(),
                        old(all_addrs)@.map_values(|r: Recipient| r@),
                        msv.take(i as int),
                    ),
            {
                assert(msv.take(i + 1).drop_last() =~= msv.take(i as int));
                let ghost s0 = all_emails.deep_view();
                let ghost o0 = all_addrs@.map_values(|r: Recipient| r@);
                match &ms[i].address {
                    Some(e) => {
                        if !regex_is_match(NO_REPLY, e.as_str()) && !contains_string(all_emails, e) {
                            all_emails.push(e.clone());
                            all_addrs.push(
                                Recipient::Single { name: ms[i].name.clone(), email: e.clone() },
                            );
                            assert(all_emails.deep_view() =~= s0.push(e@));
                            assert(all_addrs@.map_values(|r: Recipient| r@) =~= o0.push(
                                RecipientView::Single(msv[i as int].name, e@),
                            ));
                        }
                    },
                    None => {},
                }
            }
            assert(msv.take(n as int) =~= msv);
        },
        ParsedHeader::Groups(gs) => {
            let n = gs.len();
            let ghost gsv = gs@.map_values(|g: crate::template::message::MailboxGroup| g@);
            for i in 0..n
                invariant
                    n == gs@.len(),
                    gsv == gs@.map_values(|g: crate::template::message::MailboxGroup| g@),
                    (all_emails.deep_view(), all_addrs@.map_values(|r: Recipient| r@))
                        == add_groups(
                        old(all_emails).deep_view(),
                        old(all_addrs)@.map_values(|r: Recipient| r@),
                        gsv.take(i as int),
                    ),
            {
                assert(gsv.take(i + 1).drop_last() =~= gsv.take(i as int));
                let ghost s0 = all_emails.deep_view();
                let ghost o0 = all_addrs@.map_values(|r: Recipient| r@);
                match &gs[i].name {
                    Some(name) => {
                        if !contains_string(all_emails, name) {
                            let members = members_of(&gs[i].addresses);
                            all_emails.push(name.clone());
                            all_addrs.push(Recipient::Group { group: name.clone(), members });
                            assert(all_emails.deep_view() =~= s0.push(name@));
                            assert(all_addrs@.map_values(|r: Recipient| r@) =~= o0.push(
                                RecipientView::Group(name@, group_members(gsv[i as int].addresses)),
                            ));
                        }
                    },
                    None => {},
                }
            }
            assert(gsv.take(n as int) =~= gsv);
        },
        _ => {},
    }
}

// ---------------------------------------------------------------------------
// Writing recipients in a header
// ---------------------------------------------------------------------------

/// A mailbox as written in a header: `name <email>`, or the bare email
/// when there is no name or the name is empty.
pub open spec fn render_mailbox(name: Option<Seq<char>>, email: Seq<char>) -> Seq<char> {
    match name {
        Some(n) => if n.len() > 0 {
            n + " <"@ + email + ">"@
        } else {
            email
        },
        None => email,
    }
}

/// Group members as written in a header, separated by `, `.
pub open spec fn render_members(ms: Seq<(Option<Seq<char>>, Seq<char>)>) -> Seq<char> {
    join(ms.map_values(|m: (Option<Seq<char>>, Seq<char>)| render_mailbox(m.0, m.1)), ", "@)
}

/// A recipient as written in a header; a group is written
/// `name: member, member;`.
pub open spec fn render_recipient(r: RecipientView) -> Seq<char> {
    match r {
        RecipientView::Single(name, email) => render_mailbox(name, email),
        RecipientView::Group(name, ms) => name + ": "@ + render_members(ms) + ";"@,
    }
}

/// Recipients as written in an address header, separated by `, `.
pub open spec fn render_recipients(rs: Seq<RecipientView>) -> Seq<char> {
    join(rs.map_values(|r: RecipientView| render_recipient(r)), ", "@)
}

/// Appends the header form of a mailbox to `out`.
pub fn write_mailbox(out: &mut Vec<char>, name: &Option<String>, email: &str)
    ensures
        final(out)@ == old(out)@ + render_mailbox(name.deep_view(), email@),
{
    proof {
        reveal_strlit(" <");
        reveal_strlit(">");
    }
    match name {
        Some(n) => {
            if n.as_str().unicode_len() > 0 {
                extend_str(out, n.as_str());
                extend_str(out, " <");
                extend_str(out, email);
                extend_str(out, ">");
                assert(final(out)@ =~= old(out)@ + render_mailbox(name.deep_view(), email@));
            } else {
                extend_str(out, email);
            }
        },
        None => {
            extend_str(out, email);
        },
    }
}

/// Appends the header form of group members to `out`.
fn write_members(out: &mut Vec<char>, ms: &Vec<(Option<String>, String)>)
    ensures
        final(out)@ == old(out)@ + render_members(
            ms@.map_values(|m: (Option<String>, String)| (m.0.deep_view(), m.1@)),
        ),
{
    let ghost msv = ms@.map_values(|m: (Option<String>, String)| (m.0.deep_view(), m.1@));
    let ghost rendered = msv.map_values(
        |m: (Option<Seq<char>>, Seq<char>)| render_mailbox(m.0, m.1),
    );
    let n = ms.len();
    let ghost start = out@;
    proof {
        reveal_strlit(", ");
    }
    for i in 0..n
        invariant
            n == ms@.len(),
            msv == ms@.map_values(|m: (Option<String>, String)| (m.0.deep_view(), m.1@)),
            rendered == msv.map_values(|m: (Option<Seq<char>>, Seq<char>)| render_mailbox(m.0, m.1)),
            out@ == start + join(rendered.take(i as int), ", "@),
    {
        proof {
            lemma_join_push(rendered.take(i as int), ", "@, rendered[i as int]);
            assert(rendered.take(i + 1) =~= rendered.take(i as int).push(rendered[i as int]));
        }
        if i > 0 {
            extend_str(out, ", ");
        }
        write_mailbox(out, &ms[i].0, ms[i].1.as_str());
        assert(out@ =~= start + join(rendered.take(i + 1), ", "@));
    }
    assert(rendered.take(n as int) =~= rendered);
}

/// Appends the header form of a recipient to `out`.
pub fn write_recipient(out: &mut Vec<char>, r: &Recipient)
    ensures
        final(out)@ == old(out)@ + render_recipient(r@),
{
    match r {
        Recipient::Single { name, email } => write_mailbox(out, name, email.as_str()),
        Recipient::Group { group, members } => {
            proof {
                reveal_strlit(": ");
                reveal_strlit(";");
            }
            extend_str(out, group.as_str());
            extend_str(out, ": ");
            write_members(out, members);
            extend_str(out, ";");
            assert(final(out)@ =~= old(out)@ + render_recipient(r@));
        },
    }
}

/// Appends the header form of recipients to `out`, separated by `, `.
pub fn write_recipients(out: &mut Vec<char>, rs: &Vec<Recipient>)
    ensures
        final(out)@ == old(out)@ + render_recipients(rs@.map_values(|r: Recipient| r@)),
{
    let ghost rsv = rs@.map_values(|r: Recipient| r@);
    let ghost rendered = rsv.map_values(|r: RecipientView| render_recipient(r));
    let n = rs.len();
    let ghost start = out@;
    proof {
        reveal_strlit(", ");
    }
    for i in 0..n
        invariant
            n == rs@.len(),
            rsv == rs@.map_values(|r: Recipient| r@),
            rendered == rsv.map_values(|r: RecipientView| render_recipient(r)),
            out@ == start + join(rendered.take(i as int), ", "@),
    {
        proof {
            lemma_join_push(rendered.take(i as int), ", "@, rendered[i as int]);
            assert(rendered.take(i + 1) =~= rendered.take(i as int).push(rendered[i as int]));
        }
        if i > 0 {
            extend_str(out, ", ");
        }
        write_recipient(out, &rs[i]);
        assert(out@ =~= start + join(rendered.take(i + 1), ", "@));
    }
    assert(rendered.take(n as int) =~= rendered);
}

// ---------------------------------------------------------------------------
// What every addition keeps
// ---------------------------------------------------------------------------

/// The address of a single recipient; none for a group.
pub open spec fn single_address(r: RecipientView) -> Option<Seq<char>> {
    match r {
        RecipientView::Single(_, e) => Some(e),
        RecipientView::Group(_, _) => None,
    }
}

/// The recipients `out` are addressed as a reply from `me` must be,
/// given the seen addresses `seen`: `me` is seen; every single recipient
/// has an address that is seen, is not `me` and takes replies; no two
/// single recipients share an address.
pub open spec fn well_addressed(seen: Seq<Seq<char>>, out: Seq<RecipientView>, me: Seq<char>) -> bool {
    &&& seen.contains(me)
    &&& forall|i: int|
        0 <= i < out.len() ==> (#[trigger] single_address(out[i]) matches Some(e) ==> e != me
            && !is_noreply(e) && seen.contains(e))
    &&& forall|i: int, j: int|
        0 <= i < j < out.len() && (#[trigger] single_address(out[i])) is Some ==> single_address(out[i])
            != #[trigger] single_address(out[j])
}

/// Adding mailboxes keeps the recipients well addressed.
pub proof fn lemma_add_mailboxes_well_addressed(
    seen: Seq<Seq<char>>,
    out: Seq<RecipientView>,
    ms: Seq<MailboxView>,
    me: Seq<char>,
)
    requires
        well_addressed(seen, out, me),
    ensures
        well_addressed(add_mailboxes(seen, out, ms).0, add_mailboxes(seen, out, ms).1, me),
    decreases ms.len(),
{
    if ms.len() > 0 {
        lemma_add_mailboxes_well_addressed(seen, out, ms.drop_last(), me);
        let (s, o) = add_mailboxes(seen, out, ms.drop_last());
        let m = ms.last();
        if let Some(e) = m.address {
            if !is_noreply(e) && !s.contains(e) {
                let s2 = s.push(e);
                let o2 = o.push(RecipientView::Single(m.name, e));
                assert(s2.contains(me)) by {
                    let k = choose|k: int| 0 <= k < s.len() && s[k] == me;
                    assert(s2[k] == me);
                }
                assert forall|i: int|
                    0 <= i < o2.len() implies (#[trigger] single_address(o2[i]) matches Some(x) ==> x
                        != me && !is_noreply(x) && s2.contains(x)) by {
                    if i < o.len() {
                        assert(o2[i] == o[i]);
                        if let Some(x) = single_address(o[i]) {
                            let k = choose|k: int| 0 <= k < s.len() && s[k] == x;
                            assert(s2[k] == x);
                        }
                    } else {
                        assert(s2[s.len() as int] == e);
                    }
                }
                assert forall|i: int, j: int|
                    0 <= i < j < o2.len() && (#[trigger] single_address(o2[i])) is Some implies single_address(o2[i])
                        != #[trigger] single_address(o2[j]) by {
                    assert(o2[i] == o[i]);
                    if j == o.len() {
                        assert(o2[j] == RecipientView::Single(m.name, e));
                    } else {
                        assert(o2[j] == o[j]);
                    }
                }
            }
        }
    }
}

/// Adding groups keeps the recipients well addressed.
pub proof fn lemma_add_groups_well_addressed(
    seen: Seq<Seq<char>>,
    out: Seq<RecipientView>,
    gs: Seq<GroupView>,
    me: Seq<char>,
)
    requires
        well_addressed(seen, out, me),
    ensures
        well_addressed(add_groups(seen, out, gs).0, add_groups(seen, out, gs).1, me),
    decreases gs.len(),
{
    if gs.len() > 0 {
        lemma_add_groups_well_addressed(seen, out, gs.drop_last(), me);
        let (s, o) = add_groups(seen, out, gs.drop_last());
        let g = gs.last();
        if let Some(n) = g.name {
            if !s.contains(n) {
                let s2 = s.push(n);
                let o2 = o.push(RecipientView::Group(n, group_members(g.addresses)));
                assert(s2.contains(me)) by {
                    let k = choose|k: int| 0 <= k < s.len() && s[k] == me;
                    assert(s2[k] == me);
                }
                assert forall|i: int|
                    0 <= i < o2.len() implies (#[trigger] single_address(o2[i]) matches Some(x) ==> x
                        != me && !is_noreply(x) && s2.contains(x)) by {
                    if i < o.len() {
                        assert(o2[i] == o[i]);
                        if let Some(x) = single_address(o[i]) {
                            let k = choose|k: int| 0 <= k < s.len() && s[k] == x;
                            assert(s2[k] == x);
                        }
                    }
                }
                assert forall|i: int, j: int|
                    0 <= i < j < o2.len() && (#[trigger] single_address(o2[i])) is Some implies single_address(o2[i])
                        != #[trigger] single_address(o2[j]) by {
                    assert(o2[i] == o[i]);
                    if j < o.len() {
                        assert(o2[j] == o[j]);
                    }
                }
            }
        }
    }
}

/// Adding the recipients of a header keeps them well addressed.
pub proof fn lemma_add_header_well_addressed(
    seen: Seq<Seq<char>>,
    out: Seq<RecipientView>,
    header: HeaderView,
    me: Seq<char>,
)
    requires
        well_addressed(seen, out, me),
    ensures
        well_addressed(add_header(seen, out, header).0, add_header(seen, out, header).1, me),
{
    match header {
        HeaderView::Addresses(ms) => lemma_add_mailboxes_well_addressed(seen, out, ms, me),
        HeaderView::Groups(gs) => lemma_add_groups_well_addressed(seen, out, gs, me),
        _ => {},
    }
}

/// Adding mailboxes appends to the recipients, whatever they were, and
/// sees the same addresses.
pub proof fn lemma_add_mailboxes_appends(seen: Seq<Seq<char>>, out: Seq<RecipientView>, ms: Seq<MailboxView>)
    ensures
        add_mailboxes(seen, out, ms).0 == add_mailboxes(seen, seq![], ms).0,
        add_mailboxes(seen, out, ms).1 == out + add_mailboxes(seen, seq![], ms).1,
    decreases ms.len(),
{
    if ms.len() == 0 {
        assert(out + Seq::<RecipientView>::empty() =~= out);
    } else {
        lemma_add_mailboxes_appends(seen, out, ms.drop_last());
        let (s, o) = add_mailboxes(seen, seq![], ms.drop_last());
        let m = ms.last();
        if let Some(e) = m.address {
            assert((out + o).push(RecipientView::Single(m.name, e)) =~= out + o.push(
                RecipientView::Single(m.name, e),
            ));
        }
    }
}

/// Adding groups appends to the recipients, whatever they were, and sees
/// the same names.
pub proof fn lemma_add_groups_appends(seen: Seq<Seq<char>>, out: Seq<RecipientView>, gs: Seq<GroupView>)
    ensures
        add_groups(seen, out, gs).0 == add_groups(seen, seq![], gs).0,
        add_groups(seen, out, gs).1 == out + add_groups(seen, seq![], gs).1,
    decreases gs.len(),
{
    if gs.len() == 0 {
        assert(out + Seq::<RecipientView>::empty() =~= out);
    } else {
        lemma_add_groups_appends(seen, out, gs.drop_last());
        let (s, o) = add_groups(seen, seq![], gs.drop_last());
        let g = gs.last();
        if let Some(n) = g.name {
            assert((out + o).push(RecipientView::Group(n, group_members(g.addresses))) =~= out
                + o.push(RecipientView::Group(n, group_members(g.addresses))));
        }
    }
}

/// Adding the recipients of a header appends to the recipients, whatever
/// they were, and sees the same addresses.
pub proof fn lemma_add_header_appends(seen: Seq<Seq<char>>, out: Seq<RecipientView>, header: HeaderView)
    ensures
        add_header(seen, out, header).0 == add_header(seen, seq![], header).0,
        add_header(seen, out, header).1 == out + add_header(seen, seq![], header).1,
{
    match header {
        HeaderView::Addresses(ms) => lemma_add_mailboxes_appends(seen, out, ms),
        HeaderView::Groups(gs) => lemma_add_groups_appends(seen, out, gs),
        _ => {
            assert(out + Seq::<RecipientView>::empty() =~= out);
        },
    }
}

} // verus!
