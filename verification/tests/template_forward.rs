use mml::template::forward::{build, trim_prefix, BuildForwardTemplateArgs};
use mml::template::message::SourceMessage;
use mml::template::Template;

fn lines(parts: &[&str]) -> String {
    parts.join("\n")
}

#[test]
fn forward_default() {
        let msg = SourceMessage::parse_str(&lines(&[
                "Content-Type: text/plain",
                "From: sender@localhost",
                "To: me@localhost",
                "Subject: subject",
                "",
                "Hello, world!",
                "",
            ]))
            .unwrap();

        assert_eq!(
            build(
                &msg,
                BuildForwardTemplateArgs {
                    from_name: "Me".into(),
                    from: "me@localhost".into(),
                    quote_headline: "-------- Forwarded Message --------\n".into(),
                    ..Default::default()
                },
            )
            .unwrap(),
            Template::new_with_cursor(
                lines(&[
                    "From: Me <me@localhost>",
                    "To: ",
                    "Subject: Fwd: subject",
                    "",
                    "", // cursor here
                    "",
                    "-------- Forwarded Message --------",
                    "From: sender@localhost",
                    "To: me@localhost",
                    "Subject: subject",
                    "",
                    "Hello, world!",
                ]),
                (5, 0),
            ),
        );
    }

#[test]
fn forward_with_signature() {
        let msg = SourceMessage::parse_str(&lines(&[
                "Content-Type: text/plain",
                "From: sender@localhost",
                "To: me@localhost",
                "Subject: subject",
                "",
                "Hello, world!",
                "",
            ]))
            .unwrap();

        assert_eq!(
            build(
                &msg,
                BuildForwardTemplateArgs {
                    from_name: "Me".into(),
                    from: "me@localhost".into(),
                    signature: "-- \nsignature".into(),
                    quote_headline: "-------- Forwarded Message --------\n".into(),
                    ..Default::default()
                },
            )
            .unwrap(),
            Template::new_with_cursor(
                lines(&[
                    "From: Me <me@localhost>",
                    "To: ",
                    "Subject: Fwd: subject",
                    "",
                    "", // cursor here
                    "",
                    "-- ",
                    "signature",
                    "",
                    "-------- Forwarded Message --------",
                    "From: sender@localhost",
                    "To: me@localhost",
                    "Subject: subject",
                    "",
                    "Hello, world!",
                ]),
                (5, 0),
            ),
        );
    }

#[test]
fn forward_trim_subject_prefix() {
        assert_eq!(trim_prefix("Hello, world!"), "Hello, world!");
        assert_eq!(trim_prefix("fwd:Hello, world!"), "Hello, world!");
        assert_eq!(trim_prefix("Fwd   :Hello, world!"), "Hello, world!");
        assert_eq!(trim_prefix("fWd:   Hello, world!"), "Hello, world!");
        assert_eq!(
            trim_prefix("  FWD:  fwd  :Hello, world!"),
            "Hello, world!"
        );
    }

