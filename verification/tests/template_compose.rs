use mml::template::compose::{TemplateBuilderCompose, TemplateComposeSignatureStyle};
use mml::template::Template;

fn lines(parts: &[&str]) -> String {
    parts.join("\n")
}

#[test]
fn compose_default() {
        assert_eq!(
            TemplateBuilderCompose {
                from_name: Some("Me".into()),
                from: "me@localhost".into(),
                ..Default::default()
            }
            .build()
            .unwrap(),
            Template::new_with_cursor(
                lines(&[
                    "From: Me <me@localhost>",
                    "To: ",
                    "Subject: ",
                    "",
                    "", // cursor here
                ]),
                (5, 0),
            ),
        );
    }

#[test]
fn compose_with_headers() {
        assert_eq!(
            TemplateBuilderCompose {
                from_name: Some("Me".into()),
                from: "me@localhost".into(),
                headers: vec![("In-Reply-To".into(), "".into()), ("Cc".into(), "".into())],
                ..Default::default()
            }
            .build()
            .unwrap(),
            Template::new_with_cursor(
                lines(&[
                    "From: Me <me@localhost>",
                    "To: ",
                    "In-Reply-To: ",
                    "Cc: ",
                    "Subject: ",
                    "",
                    "", // cursor here
                ]),
                (7, 0),
            )
        );
    }

#[test]
fn compose_with_body() {
        assert_eq!(
            TemplateBuilderCompose {
                from_name: Some("Me".into()),
                from: "me@localhost".into(),
                body: "Hello, world!".into(),
                ..Default::default()
            }
            .build()
            .unwrap(),
            Template::new_with_cursor(
                lines(&[
                    "From: Me <me@localhost>",
                    "To: ",
                    "Subject: ",
                    "",
                    "Hello, world!", // cursor here
                ]),
                (5, 13),
            )
        );

        assert_eq!(
            TemplateBuilderCompose {
                from_name: Some("Me".into()),
                from: "me@localhost".into(),
                body: "\n\nHello\n,\nworld!\n\n!".into(),
                ..Default::default()
            }
            .build()
            .unwrap(),
            Template::new_with_cursor(
                lines(&[
                    "From: Me <me@localhost>",
                    "To: ",
                    "Subject: ",
                    "",
                    "",
                    "",
                    "Hello",
                    ",",
                    "world!",
                    "",
                    "!", // cursor here
                ]),
                (11, 1),
            )
        );
    }

#[test]
fn compose_with_signature() {
        assert_eq!(
            TemplateBuilderCompose {
                from_name: Some("Me".into()),
                from: "me@localhost".into(),
                signature: "-- \nsignature".into(),
                ..Default::default()
            }
            .build()
            .unwrap(),
            Template::new_with_cursor(
                lines(&[
                    "From: Me <me@localhost>",
                    "To: ",
                    "Subject: ",
                    "",
                    "", // cursor here
                    "",
                    "-- ",
                    "signature",
                ]),
                (5, 0),
            )
        );

        assert_eq!(
            TemplateBuilderCompose {
                from_name: Some("Me".into()),
                from: "me@localhost".into(),
                signature: "-- \nsignature".into(),
                signature_style: TemplateComposeSignatureStyle::Hidden,
                ..Default::default()
            }
            .build()
            .unwrap(),
            Template::new_with_cursor(
                lines(&[
                    "From: Me <me@localhost>",
                    "To: ",
                    "Subject: ",
                    "",
                    "", // cursor here
                ]),
                (5, 0),
            )
        );

        assert_eq!(
            TemplateBuilderCompose {
                from_name: Some("Me".into()),
                from: "me@localhost".into(),
                signature: "-- \nsignature".into(),
                signature_style: TemplateComposeSignatureStyle::Inlined,
                ..Default::default()
            }
            .build()
            .unwrap(),
            Template::new_with_cursor(
                lines(&[
                    "From: Me <me@localhost>",
                    "To: ",
                    "Subject: ",
                    "",
                    "", // cursor here
                    "",
                    "-- ",
                    "signature",
                ]),
                (5, 0),
            )
        );
    }

#[test]
fn compose_with_body_and_signature() {
        assert_eq!(
            TemplateBuilderCompose {
                from_name: Some("Me".into()),
                from: "me@localhost".into(),
                body: "Hello, world!".into(),
                signature: "-- \nsignature".into(),
                ..Default::default()
            }
            .build()
            .unwrap(),
            Template::new_with_cursor(
                lines(&[
                    "From: Me <me@localhost>",
                    "To: ",
                    "Subject: ",
                    "",
                    "Hello, world!", // cursor here
                    "",
                    "-- ",
                    "signature",
                ]),
                (5, 13),
            )
        );

        assert_eq!(
            TemplateBuilderCompose {
                from_name: Some("Me".into()),
                from: "me@localhost".into(),
                body: "\n\nHello,\n\nworld\n\n!".into(),
                signature: "-- \nsignature".into(),
                ..Default::default()
            }
            .build()
            .unwrap(),
            Template::new_with_cursor(
                lines(&[
                    "From: Me <me@localhost>",
                    "To: ",
                    "Subject: ",
                    "",
                    "",
                    "",
                    "Hello,",
                    "",
                    "world",
                    "",
                    "!", // cursor
                    "",
                    "-- ",
                    "signature",
                ]),
                (11, 1),
            )
        );
    }

