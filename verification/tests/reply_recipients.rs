use mml::template::message::SourceMessage;
use mml::template::reply::{build, BuildReplyTemplateArgs};
use mml::template::Template;

fn lines(parts: &[&str]) -> String {
    parts.join("\n")
}

#[test]
fn each_address_is_addressed_once() {
    let msg = SourceMessage::parse_str(&lines(&[
        "Content-Type: text/plain",
        "From: a@localhost",
        "To: me@localhost, b@localhost",
        "Cc: b@localhost, a@localhost, c@localhost, noreply@localhost",
        "Subject: s",
        "",
        "Hi",
    ]))
    .unwrap();

    assert_eq!(
        build(
            &msg,
            BuildReplyTemplateArgs {
                from: "me@localhost".into(),
                reply_all: true,
                ..Default::default()
            },
        )
        .unwrap(),
        Template::new_with_cursor(
            lines(&[
                "From: me@localhost",
                "To: a@localhost, b@localhost",
                "Cc: c@localhost",
                "Subject: Re: s",
                "",
                "",
                "",
                "> Hi",
            ]),
            (6, 0),
        ),
    );
}

#[test]
fn no_reply_addresses_are_left_out() {
    let msg = SourceMessage::parse_str(&lines(&[
        "Content-Type: text/plain",
        "From: a@localhost",
        "To: me@localhost",
        "Cc: No.Reply@localhost, NOTREPLY@localhost, no_reply@localhost, noxreply@localhost, dont-reply@localhost",
        "Subject: s",
        "",
        "Hi",
    ]))
    .unwrap();
    let tpl = build(
        &msg,
        BuildReplyTemplateArgs { from: "me@localhost".into(), reply_all: true, ..Default::default() },
    )
    .unwrap();
    assert!(tpl.content.contains("Cc: noxreply@localhost, dont-reply@localhost\n"));
}

#[test]
fn subject_prefixes_stop_at_the_first_line_end() {
    assert_eq!(mml::template::reply::trim_prefix(" re : RE:hi\nthere"), "hi");
    assert_eq!(mml::template::reply::trim_prefix("Re x"), "Re x");
    assert_eq!(mml::template::forward::trim_prefix("Fwd: Re: x"), "Re: x");
}

#[test]
fn trimming_subject_prefixes_twice_is_trimming_once() {
    use_trim(mml::template::reply::trim_prefix, &["Re: Re: x", " re :  hi", "Re:", "RE: re x\nre: y"]);
    use_trim(mml::template::forward::trim_prefix, &["Fwd: Fwd: x", "fwd:fwd:", "x"]);
}

fn use_trim(trim: fn(&str) -> String, subjects: &[&str]) {
    for s in subjects {
        let once = trim(s);
        assert_eq!(trim(&once), once);
    }
}

#[test]
fn trimmed_subject_ends_the_subject_and_has_no_prefix_left() {
    for s in ["  RE:  re  :Hello, world!", "Hello, world!", "re: re", "Re:Re:"] {
        let r = mml::template::reply::trim_prefix(s);
        assert!(s.ends_with(r.as_str()));
        assert!(!r.trim_start().to_lowercase().starts_with("re:"));
    }
    assert_eq!(mml::template::reply::trim_prefix("  RE:  re  :Hello, world!"), "Hello, world!");
}
