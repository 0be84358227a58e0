//! Reading MIME messages, done by `mail_parser`. Each function parses the
//! raw bytes it is given and reads one thing of the message.

use vstd::prelude::*;

use mail_parser::{Address as MimeAddress, HeaderValue as MimeHeaderValue};

use crate::template::message::{ParsedHeader, HeaderView, Mailbox, MailboxGroup};

verus! {

/// `mail_parser::Addr`, a mailbox of a parsed address header.
#[verifier::external_type_specification]
#[verifier::external_body]
pub struct ExMimeAddr<'x>(mail_parser::Addr<'x>);

/// `mail_parser::Group`, a group of a parsed address header.
#[verifier::external_type_specification]
#[verifier::external_body]
pub struct ExMimeGroup<'x>(mail_parser::Group<'x>);

/// `mail_parser::HeaderValue`, the parsed value of a header.
#[verifier::external_type_specification]
#[verifier::external_body]
pub struct ExMimeHeaderValue<'x>(mail_parser::HeaderValue<'x>);

/// Whether `mail_parser` recognises a message in `raw`.
pub uninterp spec fn parses_as_message(raw: Seq<u8>) -> bool;

/// The value `mail_parser` gives to header `name` of the message in `raw`.
pub uninterp spec fn parsed_header(raw: Seq<u8>, name: Seq<char>) -> HeaderView;

/// The raw text `mail_parser` finds for header `name` of the message in
/// `raw`.
pub uninterp spec fn parsed_raw_header(raw: Seq<u8>, name: Seq<char>) -> Option<Seq<char>>;

/// The subject `mail_parser` reads in `raw`.
pub uninterp spec fn parsed_subject(raw: Seq<u8>) -> Option<Seq<char>>;

/// The message id `mail_parser` reads in `raw`.
pub uninterp spec fn parsed_message_id(raw: Seq<u8>) -> Option<Seq<char>>;

/// The first text body `mail_parser` reads in `raw`.
pub uninterp spec fn parsed_text_body(raw: Seq<u8>) -> Option<Seq<char>>;

/// The bytes of the message `mail_parser` finds in `raw`.
pub uninterp spec fn parsed_raw_message(raw: Seq<u8>) -> Seq<u8>;

/// Whether `mail_parser::MessageParser::parse` returns a message for
/// `raw`. The contract names the answer and claims nothing more.
#[verifier::external_body]
pub(crate) fn is_message(raw: &[u8]) -> (r: bool)
    ensures
        r == parses_as_message(raw@),
{
    mail_parser::MessageParser::new().parse(raw).is_some()
}

/// `mail_parser::Message::header` for header `name` of the message parsed
/// from `raw`, converted to a [`ParsedHeader`] (an absent header, or raw
/// bytes that hold no message, give `ParsedHeader::Empty`). The contract
/// names the result and claims nothing more.
#[verifier::external_body]
pub(crate) fn header(raw: &[u8], name: &str) -> (r: ParsedHeader)
    ensures
        r@ == parsed_header(raw@, name@),
{
    let msg = mail_parser::MessageParser::new().parse(raw);
    let key = mail_parser::HeaderName::parse(name.to_string());
    let value = msg.as_ref().zip(key).and_then(|(m, k)| m.header(k).cloned());
    value.map_or(ParsedHeader::Empty, |v| header_value(v.into_owned()))
}

/// Converts a `mail_parser::HeaderValue` into a [`ParsedHeader`], variant
/// by variant.
#[verifier::external_body]
fn header_value(v: MimeHeaderValue<'static>) -> ParsedHeader {
    match v {
        MimeHeaderValue::Address(MimeAddress::List(l)) => ParsedHeader::Addresses(l.into_iter().map(mailbox).collect()),
        MimeHeaderValue::Address(MimeAddress::Group(g)) => ParsedHeader::Groups(g.into_iter().map(group).collect()),
        MimeHeaderValue::Text(t) => ParsedHeader::Text(t.into_owned()),
        MimeHeaderValue::TextList(l) => ParsedHeader::TextList(l.into_iter().map(|t| t.into_owned()).collect()),
        MimeHeaderValue::Empty => ParsedHeader::Empty,
        _ => ParsedHeader::Other,
    }
}

/// Converts a `mail_parser::Addr` into a [`Mailbox`], field by field.
#[verifier::external_body]
fn mailbox(a: mail_parser::Addr<'static>) -> Mailbox {
    Mailbox { name: a.name.map(|n| n.into_owned()), address: a.address.map(|e| e.into_owned()) }
}

/// Converts a `mail_parser::Group` into a [`MailboxGroup`], field by field.
#[verifier::external_body]
fn group(g: mail_parser::Group<'static>) -> MailboxGroup {
    MailboxGroup {
        name: g.name.map(|n| n.into_owned()),
        addresses: g.addresses.into_iter().map(mailbox).collect(),
    }
}

/// `mail_parser::Message::header_raw` for header `name` of the message
/// parsed from `raw`. The contract names the result and claims nothing
/// more.
#[verifier::external_body]
pub(crate) fn raw_header(raw: &[u8], name: &str) -> (r: Option<String>)
    ensures
        r.deep_view() == parsed_raw_header(raw@, name@),
{
    let msg = mail_parser::MessageParser::new().parse(raw);
    let key = mail_parser::HeaderName::parse(name.to_string());
    msg.as_ref().zip(key).and_then(|(m, k)| m.header_raw(k).map(String::from))
}

/// `mail_parser::Message::subject` of the message parsed from `raw`. The
/// contract names the result and claims nothing more.
#[verifier::external_body]
pub(crate) fn subject(raw: &[u8]) -> (r: Option<String>)
    ensures
        r.deep_view() == parsed_subject(raw@),
{
    let msg = mail_parser::MessageParser::new().parse(raw);
    msg.as_ref().and_then(|m| m.subject().map(String::from))
}

/// `mail_parser::Message::message_id` of the message parsed from `raw`.
/// The contract names the result and claims nothing more.
#[verifier::external_body]
pub(crate) fn message_id(raw: &[u8]) -> (r: Option<String>)
    ensures
        r.deep_view() == parsed_message_id(raw@),
{
    let msg = mail_parser::MessageParser::new().parse(raw);
    msg.as_ref().and_then(|m| m.message_id().map(String::from))
}

/// `mail_parser::Message::body_text(0)` of the message parsed from `raw`:
/// its first text body, an HTML body converted to plain text. The
/// contract names the result and claims nothing more.
#[verifier::external_body]
pub(crate) fn text_body(raw: &[u8]) -> (r: Option<String>)
    ensures
        r.deep_view() == parsed_text_body(raw@),
{
    let msg = mail_parser::MessageParser::new().parse(raw);
    msg.as_ref().and_then(|m| m.body_text(0).map(|t| t.into_owned()))
}

/// `mail_parser::Message::raw_message` of the message parsed from `raw`
/// (empty when no message is recognised). The contract names the result
/// and claims nothing more.
#[verifier::external_body]
pub(crate) fn raw_message(raw: &[u8]) -> (r: Vec<u8>)
    ensures
        r@ == parsed_raw_message(raw@),
{
    let msg = mail_parser::MessageParser::new().parse(raw);
    msg.as_ref().map_or(Vec::new(), |m| m.raw_message().to_vec())
}

} // verus!
