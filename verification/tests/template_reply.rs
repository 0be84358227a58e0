use mml::template::message::SourceMessage;
use mml::template::reply::{
    build, trim_prefix, BuildReplyTemplateArgs, ReplyTemplatePostingStyle,
    ReplyTemplateSignatureStyle,
};
use mml::template::Template;

fn lines(parts: &[&str]) -> String {
    parts.join("\n")
}

#[test]
fn reply_default() {
        let msg = SourceMessage::parse_str(&lines(&[
                "Content-Type: text/plain",
                "From: sender@localhost",
                "To: me@localhost",
                "Subject: subject",
                "",
                "",
                "",
            ]))
            .unwrap();

        assert_eq!(
            build(
                &msg,
                BuildReplyTemplateArgs {
                    from_name: "Me".into(),
                    from: "me@localhost".into(),
                    ..Default::default()
                },
            )
            .unwrap(),
            Template::new_with_cursor(
                lines(&[
                    "From: Me <me@localhost>",
                    "To: sender@localhost",
                    "Subject: Re: subject",
                    "",
                    "", // cursor here
                ]),
                (5, 0),
            )
        );
    }

#[test]
fn reply_with_body() {
        let msg = SourceMessage::parse_str(&lines(&[
                "Content-Type: text/plain",
                "From: sender@localhost",
                "To: me@localhost",
                "Subject: subject",
                "",
                "Hello, world!",
                "",
            ]))
            .unwrap();

        assert_eq!(
            build(
                &msg,
                BuildReplyTemplateArgs {
                    from_name: "Me".into(),
                    from: "me@localhost".into(),
                    ..Default::default()
                },
            )
            .unwrap(),
            Template::new_with_cursor(
                lines(&[
                    "From: Me <me@localhost>",
                    "To: sender@localhost",
                    "Subject: Re: subject",
                    "",
                    "", // cursor here
                    "",
                    "> Hello, world!",
                ]),
                (5, 0),
            ),
        );

        assert_eq!(
            build(
                &msg,
                BuildReplyTemplateArgs {
                    from_name: "Me".into(),
                    from: "me@localhost".into(),
                    body: "Hello, back!".into(),
                    ..Default::default()
                },
            )
            .unwrap(),
            Template::new_with_cursor(
                lines(&[
                    "From: Me <me@localhost>",
                    "To: sender@localhost",
                    "Subject: Re: subject",
                    "",
                    "Hello, back!", // cursor here
                    "",
                    "> Hello, world!",
                ]),
                (5, 12),
            ),
        );

        assert_eq!(
            build(
                &msg,
                BuildReplyTemplateArgs {
                    from_name: "Me".into(),
                    from: "me@localhost".into(),
                    body: "\n\nHello\n,\nworld!\n\n!".into(),
                    ..Default::default()
                },
            )
            .unwrap(),
            Template::new_with_cursor(
                lines(&[
                    "From: Me <me@localhost>",
                    "To: sender@localhost",
                    "Subject: Re: subject",
                    "",
                    "",
                    "",
                    "Hello",
                    ",",
                    "world!",
                    "",
                    "!", // cursor here
                    "",
                    "> Hello, world!",
                ]),
                (11, 1),
            ),
        );
    }

#[test]
fn reply_with_signature() {
        let msg = SourceMessage::parse_str(&lines(&[
                "Content-Type: text/plain",
                "From: sender@localhost",
                "To: me@localhost",
                "Subject: subject",
                "",
                "Hello, world!",
                "",
            ]))
            .unwrap();

        assert_eq!(
            build(
                &msg,
                BuildReplyTemplateArgs {
                    from_name: "Me".into(),
                    from: "me@localhost".into(),
                    signature: "-- \nsignature".into(),
                    ..Default::default()
                },
            )
            .unwrap(),
            Template::new_with_cursor(
                lines(&[
                    "From: Me <me@localhost>",
                    "To: sender@localhost",
                    "Subject: Re: subject",
                    "",
                    "", // cursor here
                    "",
                    "> Hello, world!",
                    "",
                    "-- ",
                    "signature",
                ]),
                (5, 0),
            ),
        );

        assert_eq!(
            build(
                &msg,
                BuildReplyTemplateArgs {
                    from_name: "Me".into(),
                    from: "me@localhost".into(),
                    signature: "-- \nsignature".into(),
                    // force signature above quote
                    signature_style: ReplyTemplateSignatureStyle::AboveQuote,
                    ..Default::default()
                },
            )
            .unwrap(),
            Template::new_with_cursor(
                lines(&[
                    "From: Me <me@localhost>",
                    "To: sender@localhost",
                    "Subject: Re: subject",
                    "",
                    "", // cursor here
                    "",
                    "-- ",
                    "signature",
                    "",
                    "> Hello, world!",
                ]),
                (5, 0),
            ),
        );

        assert_eq!(
            build(
                &msg,
                BuildReplyTemplateArgs {
                    from_name: "Me".into(),
                    from: "me@localhost".into(),
                    signature: "-- \nsignature".into(),
                    // force signature hidden
                    signature_style: ReplyTemplateSignatureStyle::Hidden,
                    ..Default::default()
                },
            )
            .unwrap(),
            Template::new_with_cursor(
                lines(&[
                    "From: Me <me@localhost>",
                    "To: sender@localhost",
                    "Subject: Re: subject",
                    "",
                    "", // cursor here
                    "",
                    "> Hello, world!",
                ]),
                (5, 0),
            ),
        );
    }

#[test]
fn with_quote() {
        let msg = SourceMessage::parse_str(&lines(&[
                "Content-Type: text/plain",
                "From: sender@localhost",
                "To: me@localhost",
                "Subject: subject",
                "",
                "Hello, world!",
                "",
            ]))
            .unwrap();

        assert_eq!(
            build(
                &msg,
                BuildReplyTemplateArgs {
                    from_name: "Me".into(),
                    from: "me@localhost".into(),
                    // force the bottom-posting style
                    posting_style: ReplyTemplatePostingStyle::Bottom,
                    ..Default::default()
                },
            )
            .unwrap(),
            Template::new_with_cursor(
                lines(&[
                    "From: Me <me@localhost>",
                    "To: sender@localhost",
                    "Subject: Re: subject",
                    "",
                    "> Hello, world!",
                    "",
                    "", // cursor here
                ]),
                (7, 0),
            ),
        );

        assert_eq!(
            build(
                &msg,
                BuildReplyTemplateArgs {
                    from_name: "Me".into(),
                    from: "me@localhost".into(),
                    // force the interleaved posting style
                    posting_style: ReplyTemplatePostingStyle::Interleaved,
                    ..Default::default()
                },
            )
            .unwrap(),
            Template::new_with_cursor(
                lines(&[
                    "From: Me <me@localhost>",
                    "To: sender@localhost",
                    "Subject: Re: subject",
                    "",
                    "> Hello, world!", // cursor here
                ]),
                (5, 0),
            ),
        );
    }

#[test]
fn reply_with_body_and_signature() {
        let msg = SourceMessage::parse_str(&lines(&[
                "Content-Type: text/plain",
                "From: sender@localhost",
                "To: me@localhost",
                "Subject: subject",
                "",
                "Hello, world!",
                "",
            ]))
            .unwrap();

        assert_eq!(
            build(
                &msg,
                BuildReplyTemplateArgs {
                    from_name: "Me".into(),
                    from: "me@localhost".into(),
                    signature: "-- \nsignature".into(),
                    ..Default::default()
                },
            )
            .unwrap(),
            Template::new_with_cursor(
                lines(&[
                    "From: Me <me@localhost>",
                    "To: sender@localhost",
                    "Subject: Re: subject",
                    "",
                    "", // cursor here
                    "",
                    "> Hello, world!",
                    "",
                    "-- ",
                    "signature"
                ]),
                (5, 0),
            ),
        );

        assert_eq!(
            build(
                &msg,
                BuildReplyTemplateArgs {
                    from_name: "Me".into(),
                    from: "me@localhost".into(),
                    signature: "-- \nsignature".into(),
                    // with single line body
                    body: "Hello, back!".into(),
                    ..Default::default()
                },
            )
            .unwrap(),
            Template::new_with_cursor(
                lines(&[
                    "From: Me <me@localhost>",
                    "To: sender@localhost",
                    "Subject: Re: subject",
                    "",
                    "Hello, back!", // cursor here
                    "",
                    "> Hello, world!",
                    "",
                    "-- ",
                    "signature"
                ]),
                (5, 12),
            ),
        );

        assert_eq!(
            build(
                &msg,
                BuildReplyTemplateArgs {
                    from_name: "Me".into(),
                    from: "me@localhost".into(),
                    signature: "-- \nsignature".into(),
                    // with single line body
                    body: "Hello, back!".into(),
                    // force signature above quote
                    signature_style: ReplyTemplateSignatureStyle::AboveQuote,
                    ..Default::default()
                },
            )
            .unwrap(),
            Template::new_with_cursor(
                lines(&[
                    "From: Me <me@localhost>",
                    "To: sender@localhost",
                    "Subject: Re: subject",
                    "",
                    "Hello, back!", // cursor here
                    "",
                    "-- ",
                    "signature",
                    "",
                    "> Hello, world!",
                ]),
                (5, 12),
            ),
        );

        assert_eq!(
            build(
                &msg,
                BuildReplyTemplateArgs {
                    from_name: "Me".into(),
                    from: "me@localhost".into(),
                    signature: "-- \nsignature".into(),
                    // with multi lines body
                    body: "\n\nHello\n,\nworld!\n\n!".into(),
                    // force signature hidden
                    signature_style: ReplyTemplateSignatureStyle::Hidden,
                    ..Default::default()
                },
            )
            .unwrap(),
            Template::new_with_cursor(
                lines(&[
                    "From: Me <me@localhost>",
                    "To: sender@localhost",
                    "Subject: Re: subject",
                    "",
                    "",
                    "",
                    "Hello",
                    ",",
                    "world!",
                    "",
                    "!", // cursor here
                    "",
                    "> Hello, world!",
                ]),
                (11, 1),
            ),
        );
    }

#[test]
fn with_signature_and_quote() {
        let msg = SourceMessage::parse_str(&lines(&[
                "Content-Type: text/plain",
                "From: sender@localhost",
                "To: me@localhost",
                "Subject: subject",
                "",
                "Hello, world!",
                "",
            ]))
            .unwrap();

        assert_eq!(
            build(
                &msg,
                BuildReplyTemplateArgs {
                    from_name: "Me".into(),
                    from: "me@localhost".into(),
                    signature: "-- \nsignature".into(),
                    // force signature above quote
                    signature_style: ReplyTemplateSignatureStyle::AboveQuote,
                    // force bottom-posting style
                    posting_style: ReplyTemplatePostingStyle::Bottom,
                    ..Default::default()
                },
            )
            .unwrap(),
            Template::new_with_cursor(
                lines(&[
                    "From: Me <me@localhost>",
                    "To: sender@localhost",
                    "Subject: Re: subject",
                    "",
                    "> Hello, world!",
                    "",
                    "", // cursor here
                    "",
                    "-- ",
                    "signature",
                ]),
                (7, 0),
            ),
        );

        assert_eq!(
            build(
                &msg,
                BuildReplyTemplateArgs {
                    from_name: "Me".into(),
                    from: "me@localhost".into(),
                    signature: "-- \nsignature".into(),
                    // force signature hidden
                    signature_style: ReplyTemplateSignatureStyle::Hidden,
                    // force bottom-posting style
                    posting_style: ReplyTemplatePostingStyle::Bottom,
                    ..Default::default()
                },
            )
            .unwrap(),
            Template::new_with_cursor(
                lines(&[
                    "From: Me <me@localhost>",
                    "To: sender@localhost",
                    "Subject: Re: subject",
                    "",
                    "> Hello, world!",
                    "",
                    "", // cursor here
                ]),
                (7, 0),
            ),
        );

        assert_eq!(
            build(
                &msg,
                BuildReplyTemplateArgs {
                    from_name: "Me".into(),
                    from: "me@localhost".into(),
                    signature: "-- \nsignature".into(),
                    // force signature above quote
                    signature_style: ReplyTemplateSignatureStyle::AboveQuote,
                    // force interleaved posting style
                    posting_style: ReplyTemplatePostingStyle::Interleaved,
                    ..Default::default()
                },
            )
            .unwrap(),
            Template::new_with_cursor(
                lines(&[
                    "From: Me <me@localhost>",
                    "To: sender@localhost",
                    "Subject: Re: subject",
                    "",
                    "-- ",
                    "signature",
                    "",
                    "> Hello, world!", // cursor here
                ]),
                (8, 0),
            ),
        );

        assert_eq!(
            build(
                &msg,
                BuildReplyTemplateArgs {
                    from_name: "Me".into(),
                    from: "me@localhost".into(),
                    signature: "-- \nsignature".into(),
                    // force signature hidden
                    signature_style: ReplyTemplateSignatureStyle::Hidden,
                    // force interleaved posting style
                    posting_style: ReplyTemplatePostingStyle::Interleaved,
                    ..Default::default()
                },
            )
            .unwrap(),
            Template::new_with_cursor(
                lines(&[
                    "From: Me <me@localhost>",
                    "To: sender@localhost",
                    "Subject: Re: subject",
                    "",
                    "> Hello, world!", // cursor here
                ]),
                (5, 0),
            ),
        );
    }

#[test]
fn with_body_and_quote() {
        let msg = SourceMessage::parse_str(&lines(&[
                "Content-Type: text/plain",
                "From: sender@localhost",
                "To: me@localhost",
                "Subject: subject",
                "",
                "Hello, world!",
                "",
            ]))
            .unwrap();

        assert_eq!(
            build(
                &msg,
                BuildReplyTemplateArgs {
                    from_name: "Me".into(),
                    from: "me@localhost".into(),
                    // with single line body
                    body: "Hello, back!".into(),
                    // force the bottom-posting style with body
                    posting_style: ReplyTemplatePostingStyle::Bottom,
                    ..Default::default()
                },
            )
            .unwrap(),
            Template::new_with_cursor(
                lines(&[
                    "From: Me <me@localhost>",
                    "To: sender@localhost",
                    "Subject: Re: subject",
                    "",
                    "> Hello, world!",
                    "",
                    "Hello, back!", // cursor here
                ]),
                (7, 12),
            ),
        );

        assert_eq!(
            build(
                &msg,
                BuildReplyTemplateArgs {
                    from_name: "Me".into(),
                    from: "me@localhost".into(),
                    // with single line body
                    body: "Hello, back!".into(),
                    // force the interleaved posting style with body
                    posting_style: ReplyTemplatePostingStyle::Interleaved,
                    ..Default::default()
                },
            )
            .unwrap(),
            Template::new_with_cursor(
                lines(&[
                    "From: Me <me@localhost>",
                    "To: sender@localhost",
                    "Subject: Re: subject",
                    "",
                    "Hello, back!",
                    "",
                    "> Hello, world!", // cursor here
                ]),
                (7, 0),
            ),
        );
    }

#[test]
fn with_body_signature_and_quote() {
        let msg = SourceMessage::parse_str(&lines(&[
                "Content-Type: text/plain",
                "From: sender@localhost",
                "To: me@localhost",
                "Subject: subject",
                "",
                "Hello, world!",
                "",
            ]))
            .unwrap();

        assert_eq!(
            build(
                &msg,
                BuildReplyTemplateArgs {
                    from_name: "Me".into(),
                    from: "me@localhost".into(),
                    signature: "-- \nsignature".into(),
                    // with single line body
                    body: "Hello, back!".into(),
                    // force signature above quote
                    signature_style: ReplyTemplateSignatureStyle::AboveQuote,
                    // force interleaved posting style
                    posting_style: ReplyTemplatePostingStyle::Interleaved,
                    ..Default::default()
                },
            )
            .unwrap(),
            Template::new_with_cursor(
                lines(&[
                    "From: Me <me@localhost>",
                    "To: sender@localhost",
                    "Subject: Re: subject",
                    "",
                    "Hello, back!",
                    "",
                    "-- ",
                    "signature",
                    "",
                    "> Hello, world!", // cursor here
                ]),
                (10, 0),
            ),
        );
    }

#[test]
fn reply_to_self() {
        let msg = SourceMessage::parse_str(&lines(&[
                "Content-Type: text/plain",
                "From: me@localhost",
                "To: to@localhost, to2@localhost",
                "Cc: cc@localhost, cc2@localhost, dot-not-reply@localhost",
                "Bcc: bcc@localhost",
                "Subject: Re: subject",
                "",
                "Hello from myself!",
                "",
                "-- ",
                "Regards,",
            ]))
            .unwrap();

        assert_eq!(
            build(
                &msg,
                BuildReplyTemplateArgs {
                    from: "me@localhost".into(),
                    ..Default::default()
                },
            )
            .unwrap(),
            Template::new_with_cursor(
                lines(&[
                    "From: me@localhost",
                    "To: to@localhost, to2@localhost",
                    "Subject: Re: subject",
                    "",
                    "",
                    "",
                    "> Hello from myself!",
                ]),
                (5, 0),
            ),
        );

        assert_eq!(
            build(
                &msg,
                BuildReplyTemplateArgs {
                    from: "me@localhost".into(),
                    reply_all: true,
                    ..Default::default()
                },
            )
            .unwrap(),
            Template::new_with_cursor(
                lines(&[
                    "From: me@localhost",
                    "To: to@localhost, to2@localhost",
                    "Cc: cc@localhost, cc2@localhost",
                    "Subject: Re: subject",
                    "",
                    "",
                    "",
                    "> Hello from myself!",
                ]),
                (6, 0),
            ),
        );
    }

#[test]
fn reply_mailing_list_using_sender() {
        let msg = SourceMessage::parse_str(&lines(&[
                "Content-Type: text/plain",
                "Sender: sender@localhost",
                "To: mlist@localhost,other@localhost",
                "Cc: sender@localhost, cc@localhost, cc2@localhost, noreply@localhost, me@localhost",
                "Bcc: bcc@localhost",
                "Subject: Re: subject",
                "",
                "Hello from mailing list!",
                "",
                "-- ",
                "Regards,",
            ]))
            .unwrap();

        assert_eq!(
            build(
                &msg,
                BuildReplyTemplateArgs {
                    from: "me@localhost".into(),
                    ..Default::default()
                },
            )
            .unwrap(),
            Template::new_with_cursor(
                lines(&[
                    "From: me@localhost",
                    "To: sender@localhost, mlist@localhost, other@localhost",
                    "Subject: Re: subject",
                    "",
                    "",
                    "",
                    "> Hello from mailing list!",
                ]),
                (5, 0),
            ),
        );

        assert_eq!(
            build(
                &msg,
                BuildReplyTemplateArgs {
                    from: "me@localhost".into(),
                    reply_all: true,
                    ..Default::default()
                },
            )
            .unwrap(),
            Template::new_with_cursor(
                lines(&[
                    "From: me@localhost",
                    "To: sender@localhost, mlist@localhost, other@localhost",
                    "Cc: cc@localhost, cc2@localhost",
                    "Subject: Re: subject",
                    "",
                    "",
                    "",
                    "> Hello from mailing list!",
                ]),
                (6, 0),
            ),
        );
    }

#[test]
fn reply_mailing_list_using_from() {
        let msg = SourceMessage::parse_str(&lines(&[
                "Content-Type: text/plain",
                "Sender: sender@localhost",
                "From: from@localhost",
                "To: mlist@localhost,other@localhost",
                "Cc: from@localhost, cc@localhost, cc2@localhost, noreply@localhost, me@localhost",
                "Bcc: bcc@localhost",
                "Subject: Re: subject",
                "",
                "Hello from mailing list!",
                "",
                "-- ",
                "Regards,",
            ]))
            .unwrap();

        assert_eq!(
            build(
                &msg,
                BuildReplyTemplateArgs {
                    from: "me@localhost".into(),
                    ..Default::default()
                },
            )
            .unwrap(),
            Template::new_with_cursor(
                lines(&[
                    "From: me@localhost",
                    "To: from@localhost, mlist@localhost, other@localhost",
                    "Subject: Re: subject",
                    "",
                    "",
                    "",
                    "> Hello from mailing list!",
                ]),
                (5, 0),
            ),
        );

        assert_eq!(
            build(
                &msg,
                BuildReplyTemplateArgs {
                    from: "me@localhost".into(),
                    reply_all: true,
                    ..Default::default()
                },
            )
            .unwrap(),
            Template::new_with_cursor(
                lines(&[
                    "From: me@localhost",
                    "To: from@localhost, mlist@localhost, other@localhost",
                    "Cc: cc@localhost, cc2@localhost",
                    "Subject: Re: subject",
                    "",
                    "",
                    "",
                    "> Hello from mailing list!",
                ]),
                (6, 0),
            ),
        );
    }

#[test]
fn reply_mailing_list_using_reply_to() {
        let msg = SourceMessage::parse_str(&lines(&[
                "Content-Type: text/plain",
                "From: from@localhost",
                "Sender: sender@localhost",
                "Reply-To: reply-to@localhost",
                "To: mlist@localhost,other@localhost",
                "Cc: from@localhost, cc@localhost, cc2@localhost, noreply@localhost",
                "Bcc: bcc@localhost",
                "Subject: Re: subject",
                "",
                "Hello from mailing list!",
                "",
                "-- ",
                "Regards,",
            ]))
            .unwrap();

        assert_eq!(
            build(
                &msg,
                BuildReplyTemplateArgs {
                    from: "me@localhost".into(),
                    ..Default::default()
                },
            )
            .unwrap(),
            Template::new_with_cursor(
                lines(&[
                    "From: me@localhost",
                    "To: reply-to@localhost",
                    "Subject: Re: subject",
                    "",
                    "",
                    "",
                    "> Hello from mailing list!",
                ]),
                (5, 0),
            ),
        );

        assert_eq!(
            build(
                &msg,
                BuildReplyTemplateArgs {
                    from: "me@localhost".into(),
                    reply_all: true,
                    ..Default::default()
                },
            )
            .unwrap(),
            Template::new_with_cursor(
                lines(&[
                    "From: me@localhost",
                    "To: reply-to@localhost",
                    "Cc: from@localhost, cc@localhost, cc2@localhost",
                    "Subject: Re: subject",
                    "",
                    "",
                    "",
                    "> Hello from mailing list!",
                ]),
                (6, 0),
            ),
        );
    }

#[test]
fn reply_mailing_list_multiple_senders() {
        let msg = SourceMessage::parse_str(&lines(&[
                "Content-Type: text/plain",
                "From: from@localhost",
                "To: mlist@localhost,me@localhost",
                "Cc: cc@localhost, cc2@localhost",
                "Subject: subject",
                "",
                "Hello from mailing list!",
                "",
                "-- ",
                "Regards,",
            ]))
            .unwrap();

        assert_eq!(
            build(
                &msg,
                BuildReplyTemplateArgs {
                    from: "me@localhost".into(),
                    ..Default::default()
                },
            )
            .unwrap(),
            Template::new_with_cursor(
                lines(&[
                    "From: me@localhost",
                    "To: from@localhost, mlist@localhost",
                    "Subject: Re: subject",
                    "",
                    "",
                    "",
                    "> Hello from mailing list!",
                ]),
                (5, 0),
            ),
        );
    }

#[test]
fn reply_trim_subject_prefix() {
        assert_eq!(trim_prefix("Hello, world!"), "Hello, world!");
        assert_eq!(trim_prefix("re:Hello, world!"), "Hello, world!");
        assert_eq!(trim_prefix("Re   :Hello, world!"), "Hello, world!");
        assert_eq!(trim_prefix("rE:   Hello, world!"), "Hello, world!");
        assert_eq!(
            trim_prefix("  RE:  re  :Hello, world!"),
            "Hello, world!"
        );
    }

#[test]
fn should_hide_part_markup_in_html_reply_thread() {
        let msg = SourceMessage::parse_str(&lines(&[
                "Content-Type: text/html",
                "From: sender@localhost",
                "To: me@localhost",
                "Subject: subject",
                "",
                "<h1>Hello, world!</h1>",
                "",
            ]))
            .unwrap();

        assert_eq!(
            build(
                &msg,
                BuildReplyTemplateArgs {
                    from_name: "Me".into(),
                    from: "me@localhost".into(),
                    ..Default::default()
                },
            )
            .unwrap(),
            Template::new_with_cursor(
                lines(&[
                    "From: Me <me@localhost>",
                    "To: sender@localhost",
                    "Subject: Re: subject",
                    "",
                    "", // cursor here
                    "",
                    "> Hello, world!",
                ]),
                (5, 0),
            ),
        );
    }

