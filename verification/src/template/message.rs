//! The source message of a reply or a forward, held as plain values: the
//! headers the builders read, the subject, the message id, the text body
//! and the raw bytes. [`SourceMessage::parse`] fills it from raw MIME bytes
//! with `mail_parser`.

use vstd::prelude::*;

use crate::mime;
use vstd::string::StringSliceAdditionalSpecFns;

verus! {

/// A mailbox of an address header: an optional display name and an
/// optional email address.
#[derive(Clone, Debug, PartialEq, Eq)]
pub struct Mailbox {
    pub name: Option<String>,
    pub address: Option<String>,
}

/// A named group of mailboxes (`name: a@b, c@d;`).
#[derive(Clone, Debug, PartialEq, Eq)]
pub struct MailboxGroup {
    pub name: Option<String>,
    pub addresses: Vec<Mailbox>,
}

/// The parsed value of a header, as far as the template builders read it.
#[derive(Clone, Debug, PartialEq, Eq)]
pub enum ParsedHeader {
    /// The header is absent or empty.
    Empty,
    /// A list of mailboxes.
    Addresses(Vec<Mailbox>),
    /// A list of groups.
    Groups(Vec<MailboxGroup>),
    /// A single text (such as one message id).
    Text(String),
    /// A list of texts (such as several message ids).
    TextList(Vec<String>),
    /// Any other kind of value (dates, content types, …).
    Other,
}

/// Mathematical value of a [`Mailbox`].
pub struct MailboxView {
    pub name: Option<Seq<char>>,
    pub address: Option<Seq<char>>,
}

/// Mathematical value of a [`MailboxGroup`].
pub struct GroupView {
    pub name: Option<Seq<char>>,
    pub addresses: Seq<MailboxView>,
}

/// Mathematical value of a [`ParsedHeader`].
pub enum HeaderView {
    Empty,
    Addresses(Seq<MailboxView>),
    Groups(Seq<GroupView>),
    Text(Seq<char>),
    TextList(Seq<Seq<char>>),
    Other,
}

impl View for Mailbox {
    type V = MailboxView;

    open spec fn view(&self) -> MailboxView {
        MailboxView { name: self.name.deep_view(), address: self.address.deep_view() }
    }
}

impl View for MailboxGroup {
    type V = GroupView;

    open spec fn view(&self) -> GroupView {
        GroupView {
            name: self.name.deep_view(),
            addresses: self.addresses@.map_values(|m: Mailbox| m@),
        }
    }
}

impl View for ParsedHeader {
    type V = HeaderView;

    open spec fn view(&self) -> HeaderView {
        match self {
            ParsedHeader::Empty => HeaderView::Empty,
            ParsedHeader::Addresses(v) => HeaderView::Addresses(v@.map_values(|m: Mailbox| m@)),
            ParsedHeader::Groups(v) => HeaderView::Groups(v@.map_values(|g: MailboxGroup| g@)),
            ParsedHeader::Text(t) => HeaderView::Text(t@),
            ParsedHeader::TextList(v) => HeaderView::TextList(v.deep_view()),
            ParsedHeader::Other => HeaderView::Other,
        }
    }
}

/// The source message of a reply or a forward.
pub struct SourceMessage {
    /// The raw MIME bytes the message was parsed from.
    pub raw: Vec<u8>,
    pub sender: ParsedHeader,
    pub from: ParsedHeader,
    pub to: ParsedHeader,
    pub cc: ParsedHeader,
    pub reply_to: ParsedHeader,
    /// The `Message-ID` header, as parsed.
    pub message_id_header: ParsedHeader,
    /// The `Message-ID` header as a single id, if it is one.
    pub message_id: Option<String>,
    pub subject: Option<String>,
    /// The raw value of the `Date` header.
    pub date: Option<String>,
    /// The first text body, HTML converted to plain text.
    pub text_body: Option<String>,
    /// The bytes of the whole message.
    pub raw_message: Vec<u8>,
}

impl SourceMessage {
    /// The message holds what `mail_parser` reads from its raw bytes.
    pub open spec fn parsed_from(self, raw: Seq<u8>) -> bool {
        &&& self.raw@ == raw
        &&& self.sender@ == mime::parsed_header(raw, "Sender"@)
        &&& self.from@ == mime::parsed_header(raw, "From"@)
        &&& self.to@ == mime::parsed_header(raw, "To"@)
        &&& self.cc@ == mime::parsed_header(raw, "Cc"@)
        &&& self.reply_to@ == mime::parsed_header(raw, "Reply-To"@)
        &&& self.message_id_header@ == mime::parsed_header(raw, "Message-ID"@)
        &&& self.message_id.deep_view() == mime::parsed_message_id(raw)
        &&& self.subject.deep_view() == mime::parsed_subject(raw)
        &&& self.date.deep_view() == mime::parsed_raw_header(raw, "Date"@)
        &&& self.text_body.deep_view() == mime::parsed_text_body(raw)
        &&& self.raw_message@ == mime::parsed_raw_message(raw)
    }

    /// Parses raw MIME bytes. Returns `None` when `mail_parser` does not
    /// recognise a message in them.
    pub fn parse(raw: &[u8]) -> (r: Option<SourceMessage>)
        ensures
            r is Some == mime::parses_as_message(raw@),
            r matches Some(m) ==> m.parsed_from(raw@),
    {
        if !mime::is_message(raw) {
            return None;
        }
        let mut copy: Vec<u8> = Vec::new();
        let n = raw.len();
        for i in 0..n
            invariant
                n == raw@.len(),
                copy@ == raw@.take(i as int),
        {
            copy.push(raw[i]);
            assert(raw@.take(i + 1) =~= raw@.take(i as int).push(raw@[i as int]));
        }
        assert(raw@.take(n as int) =~= raw@);
        Some(
            SourceMessage {
                raw: copy,
                sender: mime::header(raw, "Sender"),
                from: mime::header(raw, "From"),
                to: mime::header(raw, "To"),
                cc: mime::header(raw, "Cc"),
                reply_to: mime::header(raw, "Reply-To"),
                message_id_header: mime::header(raw, "Message-ID"),
                message_id: mime::message_id(raw),
                subject: mime::subject(raw),
                date: mime::raw_header(raw, "Date"),
                text_body: mime::text_body(raw),
                raw_message: mime::raw_message(raw),
            },
        )
    }

    /// Parses the MIME message held in `s`.
    pub fn parse_str(s: &str) -> (r: Option<SourceMessage>)
        ensures
            r is Some == mime::parses_as_message(s.spec_bytes()),
            r matches Some(m) ==> m.parsed_from(s.spec_bytes()),
    {
        let bytes = s.as_bytes();
        SourceMessage::parse(bytes)
    }
}

} // verus!
