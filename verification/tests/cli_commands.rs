use mml::cli::account::Account;
use mml::cli::args::{HeaderRawArgs, MessageArg};
use mml::cli::compose::ComposeCommand;
use mml::cli::forward::ForwardCommand;
use mml::cli::reply::ReplyCommand;
use mml::cli::template::compose::TemplateComposeCommand;
use mml::cli::template::forward::TemplateForwardCommand;
use mml::error::MmlError;
use mml::template::compose::TemplateComposeSignatureStyle;
use mml::template::forward::{ForwardTemplatePostingStyle, ForwardTemplateSignatureStyle};
use mml::template::message::SourceMessage;
use mml::template::reply::{build, ReplyTemplatePostingStyle, ReplyTemplateSignatureStyle};
use mml::template::reply::cli::TemplateReplyCommand;
use mml::template::Template;

fn lines(parts: &[&str]) -> String {
    parts.join("\n")
}

fn no_headers() -> HeaderRawArgs {
    HeaderRawArgs { raw: vec![] }
}

fn compose_command(from: Option<&str>) -> ComposeCommand {
    ComposeCommand {
        from: from.map(str::to_owned),
        from_name: None,
        signature: None,
        signature_style: None,
        headers: no_headers(),
        body: String::new(),
        output: None,
    }
}

#[test]
fn compose_without_from_is_refused() {
    assert_eq!(compose_command(None).builder(Account::default()).err(), Some(MmlError::MissingFromError));
}

#[test]
fn compose_command_line_wins_over_the_account() {
    let account = Account::default()
        .with_from(Some("config@localhost".into()))
        .with_from_name(Some("Config".into()))
        .with_signature(Some("Cheers".into()))
        .with_compose_signature_style(Some(TemplateComposeSignatureStyle::Attached));
    let mut cmd = compose_command(Some("cli@localhost"));
    cmd.signature_style = Some(TemplateComposeSignatureStyle::Hidden);
    cmd.body = "Hi".into();
    cmd.headers = HeaderRawArgs { raw: vec![("Cc".into(), "x@localhost".into())] };
    let b = cmd.builder(account).unwrap();
    assert_eq!(b.from, "cli@localhost");
    assert_eq!(b.from_name.as_deref(), Some("Config"));
    assert_eq!(b.signature, "-- \nCheers");
    assert_eq!(b.signature_style, TemplateComposeSignatureStyle::Hidden);
    assert_eq!(b.body, "Hi");
    assert_eq!(b.headers, vec![("Cc".to_string(), "x@localhost".to_string())]);
}

#[test]
fn compose_style_defaults_to_inlined() {
    let b = compose_command(Some("me@localhost")).builder(Account::default()).unwrap();
    assert_eq!(b.signature_style, TemplateComposeSignatureStyle::Inlined);
    assert_eq!(b.from_name, None);
    assert_eq!(b.signature, "");
}

#[test]
fn template_compose_prints_the_draft() {
    let cmd = TemplateComposeCommand {
        from: None,
        from_name: Some("Me".into()),
        signature: None,
        signature_style: None,
        headers: no_headers(),
        body: String::new(),
    };
    let account = Account::default().with_from(Some("me@localhost".into()));
    assert_eq!(
        cmd.execute(account).unwrap(),
        Template::new_with_cursor(
            lines(&["From: Me <me@localhost>", "To: ", "Subject: ", "", ""]),
            (5, 0),
        ),
    );
}

#[test]
fn template_compose_of_the_template_commands_prints_the_draft() {
    let cmd = mml::template::compose::cli::TemplateComposeCommand {
        from: Some("me@localhost".into()),
        from_name: None,
        signature: Some("Bye".into()),
        signature_style: None,
        headers: no_headers(),
        body: "Hello".into(),
    };
    assert_eq!(
        cmd.execute(Account::default()).unwrap(),
        Template::new_with_cursor(
            lines(&["From: me@localhost", "To: ", "Subject: ", "", "Hello", "", "-- ", "Bye"]),
            (5, 5),
        ),
    );
    let cmd = mml::template::compose::cli::TemplateComposeCommand {
        from: None,
        from_name: None,
        signature: None,
        signature_style: None,
        headers: no_headers(),
        body: String::new(),
    };
    assert_eq!(cmd.execute(Account::default()).err(), Some(MmlError::MissingFromError));
}

fn source() -> String {
    lines(&[
        "Content-Type: text/plain",
        "From: sender@localhost",
        "To: me@localhost",
        "Subject: subject",
        "",
        "Hello, world!",
        "",
    ])
}

fn template_forward(from: Option<&str>, quote_headline: Option<&str>) -> TemplateForwardCommand {
    TemplateForwardCommand {
        mime: MessageArg { raw: vec![] },
        from: from.map(str::to_owned),
        from_name: Some("Me".into()),
        signature: None,
        signature_style: None,
        posting_style: None,
        quote_headline: quote_headline.map(str::to_owned),
        headers: no_headers(),
        body: String::new(),
    }
}

#[test]
fn template_forward_prints_the_draft() {
    let account = Account::default()
        .with_forward_quote_headline(Some("-------- Forwarded Message --------\n".into()));
    let expected = Template::new_with_cursor(
        lines(&[
            "From: Me <me@localhost>",
            "To: ",
            "Subject: Fwd: subject",
            "",
            "",
            "",
            "-------- Forwarded Message --------",
            "From: sender@localhost",
            "To: me@localhost",
            "Subject: subject",
            "",
            "Hello, world!",
        ]),
        (5, 0),
    );
    let tpl = template_forward(Some("me@localhost"), None)
        .execute(account.clone(), source().as_bytes())
        .unwrap();
    assert_eq!(tpl, expected);
    // The headline given on the command line wins, a written-out `\n`
    // standing for a line feed.
    let tpl = template_forward(Some("me@localhost"), Some("-------- Forwarded Message --------\\n"))
        .execute(Account::default(), source().as_bytes())
        .unwrap();
    assert_eq!(tpl, expected);
}

#[test]
fn template_forward_errors() {
    assert_eq!(
        template_forward(None, None).execute(Account::default(), source().as_bytes()).err(),
        Some(MmlError::MissingFromError)
    );
    assert_eq!(
        template_forward(Some("me@localhost"), None).execute(Account::default(), b"").err(),
        Some(MmlError::ParseMimeMessageError)
    );
}

#[test]
fn forward_command_layers_its_settings() {
    let cmd = ForwardCommand {
        mime: MessageArg { raw: vec![] },
        from: Some("me@localhost".into()),
        from_name: None,
        signature: Some("S".into()),
        signature_style: Some(ForwardTemplateSignatureStyle::Attached),
        posting_style: None,
        quote_headline: Some("FWD\n".into()),
        headers: no_headers(),
        body: "b".into(),
    };
    let account = Account::default()
        .with_from_name(Some("Me".into()))
        .with_forward_posting_style(Some(ForwardTemplatePostingStyle::Attached));
    let args = cmd.args(account).unwrap();
    assert_eq!(args.from, "me@localhost");
    assert_eq!(args.from_name, "Me");
    assert_eq!(args.signature, "-- \nS");
    assert_eq!(args.signature_style, ForwardTemplateSignatureStyle::Attached);
    assert_eq!(args.posting_style, ForwardTemplatePostingStyle::Attached);
    assert_eq!(args.quote_headline, "FWD\n");
    assert_eq!(args.body, "b");
}

fn reply_command(from: Option<&str>, reply_all: bool) -> ReplyCommand {
    ReplyCommand {
        mime: MessageArg { raw: vec![] },
        reply_all,
        from: from.map(str::to_owned),
        from_name: None,
        signature: None,
        signature_style: None,
        posting_style: None,
        quote_headline: None,
        headers: no_headers(),
        body: String::new(),
    }
}

#[test]
fn reply_command_builds_the_reply() {
    let account = Account::default().with_from_name(Some("Me".into()));
    let args = reply_command(Some("me@localhost"), false).args(account).unwrap();
    assert_eq!(args.signature_style, ReplyTemplateSignatureStyle::BelowQuote);
    assert_eq!(args.posting_style, ReplyTemplatePostingStyle::Top);
    assert_eq!(args.quote_headline, "");
    assert!(!args.reply_all);
    let msg = SourceMessage::parse_str(&lines(&[
        "Content-Type: text/plain",
        "From: sender@localhost",
        "To: me@localhost",
        "Subject: subject",
        "",
        "",
        "",
    ]))
    .unwrap();
    assert_eq!(
        build(&msg, args).unwrap(),
        Template::new_with_cursor(
            lines(&["From: Me <me@localhost>", "To: sender@localhost", "Subject: Re: subject", "", ""]),
            (5, 0),
        ),
    );
    assert_eq!(reply_command(None, true).args(Account::default()).err(), Some(MmlError::MissingFromError));
}

#[test]
fn template_reply_command_layers_its_settings() {
    let cmd = TemplateReplyCommand {
        mime: None,
        reply_all: true,
        from: None,
        from_name: Some("Cli".into()),
        signature: None,
        signature_style: Some(ReplyTemplateSignatureStyle::AboveQuote),
        posting_style: Some(ReplyTemplatePostingStyle::Interleaved),
        quote_headline: Some("On date, someone wrote:\n".into()),
        headers: no_headers(),
        body: String::new(),
    };
    let account = Account::default()
        .with_from(Some("me@localhost".into()))
        .with_from_name(Some("Config".into()))
        .with_reply_posting_style(Some(ReplyTemplatePostingStyle::Bottom));
    let args = cmd.args(account).unwrap();
    assert_eq!(args.from, "me@localhost");
    assert_eq!(args.from_name, "Cli");
    assert!(args.reply_all);
    assert_eq!(args.signature_style, ReplyTemplateSignatureStyle::AboveQuote);
    assert_eq!(args.posting_style, ReplyTemplatePostingStyle::Interleaved);
    assert_eq!(args.quote_headline, "On date, someone wrote:\n");
}

#[test]
fn template_forward_attaches_the_message() {
    let raw = lines(&[
        "Content-Type: text/plain",
        "From: sender@localhost",
        "To: me@localhost",
        "Subject: subject",
        "Message-ID: <id@localhost>",
        "",
        "Hello, world!",
        "",
    ]);
    let mut cmd = template_forward(Some("me@localhost"), None);
    cmd.posting_style = Some(ForwardTemplatePostingStyle::Attached);
    let tpl = cmd.execute(Account::default(), raw.as_bytes()).unwrap();
    let expected = format!(
        "From: Me <me@localhost>\nTo: \nSubject: Fwd: subject\n\n\n\n<#part type=message/rfc822 disposition=attachment recipient-filename=\"id@localhost.eml\">{raw}<#/part>"
    );
    assert_eq!(tpl.content, expected);
    assert_eq!((tpl.cursor.row, tpl.cursor.col), (5, 0));
}

#[test]
fn command_line_headlines_unescape_newlines() {
    let mut cmd = reply_command(Some("me@localhost"), false);
    cmd.quote_headline = Some("On Monday:\\n".into());
    let args = cmd.args(Account::default()).unwrap();
    assert_eq!(args.quote_headline, "On Monday:\n");

    let cmd = ForwardCommand {
        mime: MessageArg { raw: vec![] },
        from: Some("me@localhost".into()),
        from_name: None,
        signature: None,
        signature_style: None,
        posting_style: None,
        quote_headline: Some("A\\nB".into()),
        headers: no_headers(),
        body: String::new(),
    };
    let account = Account::default().with_forward_quote_headline(Some("ignored".into()));
    assert_eq!(cmd.args(account).unwrap().quote_headline, "A\nB");

    let account = Account::default().with_reply_quote_headline(Some("Quoting:\\n".into()));
    let args = reply_command(Some("me@localhost"), false).args(account).unwrap();
    assert_eq!(args.quote_headline, "Quoting:\\n");
}

#[test]
fn empty_from_counts_as_unset() {
    let account = Account::default().with_from(Some("me@localhost".into()));
    let b = compose_command(Some("")).builder(account).unwrap();
    assert_eq!(b.from, "me@localhost");
    assert_eq!(compose_command(Some("")).builder(Account::default()).err(), Some(MmlError::MissingFromError));
}
