use mml::template::message::{Mailbox, ParsedHeader, SourceMessage};
use mml::template::thread::{forward_thread, reply_thread};

fn mailbox(name: Option<&str>, address: &str) -> Mailbox {
    Mailbox { name: name.map(str::to_owned), address: Some(address.to_owned()) }
}

fn message() -> SourceMessage {
    SourceMessage::parse(
        b"From: Sender <sender@localhost>\r\nTo: a@localhost, b@localhost\r\nSubject: Hello\r\nMessage-ID: <id@localhost>\r\n\r\nBody text\r\n-- \r\nsig\r\n",
    )
    .unwrap()
}

#[test]
fn parse_reads_the_headers() {
    let msg = message();
    assert_eq!(msg.from, ParsedHeader::Addresses(vec![mailbox(Some("Sender"), "sender@localhost")]));
    assert_eq!(
        msg.to,
        ParsedHeader::Addresses(vec![mailbox(None, "a@localhost"), mailbox(None, "b@localhost")])
    );
    assert_eq!(msg.cc, ParsedHeader::Empty);
    assert_eq!(msg.subject.as_deref(), Some("Hello"));
    assert_eq!(msg.message_id.as_deref(), Some("id@localhost"));
    assert!(msg.text_body.as_deref().unwrap_or_default().contains("Body text"));
    assert!(!msg.raw_message.is_empty());
}

#[test]
fn parse_refuses_what_is_not_a_message() {
    assert!(SourceMessage::parse(b"").is_none());
    assert!(SourceMessage::parse_str("").is_none());
}

#[test]
fn reply_thread_drops_the_signature() {
    let thread: String = reply_thread(&message()).into_iter().collect();
    assert_eq!(thread, "Body text");
}

#[test]
fn forward_thread_lists_the_headers() {
    let thread: String = forward_thread(&message()).into_iter().collect();
    assert!(thread.starts_with("From: Sender <sender@localhost>\nTo: a@localhost, b@localhost\nSubject: Hello\n"));
    assert!(thread.contains("Body text"));
}
