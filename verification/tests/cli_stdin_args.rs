use mml::cli::args::{join_lines_crlf, raw_header_parser, MessageArg};
use mml::cli::stdin::{format_lines, format_str};

#[test]
fn format_str_ends_each_line_with_crlf() {
    assert_eq!(format_str("a\nb"), "a\r\nb\r\n");
    assert_eq!(format_str("x\r\ny\n"), "x\r\ny\r\n");
    assert_eq!(format_str(""), "");
}

#[test]
fn format_str_strips_lone_carriage_returns() {
    assert_eq!(format_str("a\rb"), "ab\r\n");
    assert_eq!(format_str("\r\r\n\r"), "\r\n");
}

#[test]
fn format_str_expands_written_out_escapes() {
    assert_eq!(format_str("a\\r\\nb"), "a\r\nb\r\n");
    assert_eq!(format_str("one\\ntwo\\n"), "one\r\ntwo\r\n");
}

#[test]
fn format_str_output_has_no_bare_line_feed() {
    let out = format_str("a\n\nb\\nc\r\n");
    assert_eq!(out, "a\r\n\r\nb\r\nc\r\n");
    let bytes = out.as_bytes();
    for (i, b) in bytes.iter().enumerate() {
        if *b == b'\n' {
            assert!(i > 0 && bytes[i - 1] == b'\r');
        }
    }
}

#[test]
fn format_lines_terminates_each_line() {
    assert_eq!(format_lines(&vec!["a".into(), "".into(), "b".into()]), "a\r\n\r\nb\r\n");
    assert_eq!(format_lines(&vec![]), "");
}

#[test]
fn join_lines_with_crlf() {
    assert_eq!(join_lines_crlf(&vec!["a".into(), "b".into()]), "a\r\nb");
    assert_eq!(join_lines_crlf(&vec![]), "");
}

#[test]
fn raw_header_is_split_at_the_first_colon() {
    assert_eq!(
        raw_header_parser(" X-Key : a:b "),
        Ok(("X-Key".to_string(), "a:b".to_string()))
    );
    assert_eq!(raw_header_parser("Cc:"), Ok(("Cc".to_string(), String::new())));
}

#[test]
fn raw_header_without_colon_is_refused() {
    assert_eq!(
        raw_header_parser("nokey"),
        Err("cannot parse raw header \"nokey\"".to_string())
    );
    assert_eq!(
        raw_header_parser("a\"b"),
        Err("cannot parse raw header \"a\\\"b\"".to_string())
    );
}

#[test]
fn inline_message_joins_and_unescapes() {
    let arg = MessageArg { raw: vec!["Subject: hi\\n".into(), "\\nbody\\r".into()] };
    assert_eq!(arg.inline_message(), Some("Subject: hi\r\n \r\nbody".to_string()));
    assert_eq!(MessageArg { raw: vec![] }.inline_message(), None);
}
