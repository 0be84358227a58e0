use mml::cli::account::Account;
use mml::cli::args::MessageArg;
use mml::cli::interpret::InterpretCommand;
use mml::cli::read::ReadCommand;
use mml::interpreter::{flag, FilterHeaders, FilterParts, InterpreterSettings};

fn strings(v: &[&str]) -> Vec<String> {
    v.iter().map(|s| s.to_string()).collect()
}

fn read_command() -> ReadCommand {
    ReadCommand {
        include_header: None,
        exclude_header: None,
        include_part: None,
        exclude_part: None,
        show_multiparts: false,
        save_attachments: false,
        save_attachments_dir: None,
        hide_attachments: false,
        hide_inline_attachments: false,
        hide_plain_texts_signature: false,
    }
}

#[test]
fn flags_only_set_when_on() {
    assert_eq!(flag(true), Some(true));
    assert_eq!(flag(false), None);
}

#[test]
fn defaults_show_everything() {
    let (mime, o) = read_command().settings().read_options(Account::default());
    assert_eq!(mime, None);
    assert_eq!(o.filter_headers, FilterHeaders::All);
    assert_eq!(o.filter_parts, FilterParts::All);
    assert!(!o.show_multiparts && !o.save_attachments);
    assert!(o.show_attachments && o.show_inline_attachments && o.show_plain_texts_signature);
    assert_eq!(o.save_attachments_dir, None);
}

#[test]
fn exclusion_wins_over_inclusion() {
    let account = Account::default()
        .with_read_include_headers(Some(strings(&["From"])))
        .with_read_include_parts(Some(strings(&["text/plain", "text/html"])));
    let mut cmd = read_command();
    cmd.exclude_header = Some(strings(&["Received"]));
    let (_, o) = cmd.settings().read_options(account);
    assert_eq!(o.filter_headers, FilterHeaders::Exclude(strings(&["Received"])));
    assert_eq!(o.filter_parts, FilterParts::Include(strings(&["text/plain", "text/html"])));
}

#[test]
fn a_single_included_part_is_the_only_one() {
    let mut cmd = read_command();
    cmd.include_part = Some(strings(&["text/plain"]));
    let (_, o) = cmd.settings().read_options(Account::default());
    assert_eq!(o.filter_parts, FilterParts::Only("text/plain".into()));
}

#[test]
fn switches_off_leave_the_account_settings() {
    let account = Account::default()
        .with_read_hide_attachments(Some(true))
        .with_read_show_multiparts(Some(true));
    let mut cmd = read_command();
    cmd.hide_plain_texts_signature = true;
    let (_, o) = cmd.settings().read_options(account);
    assert!(!o.show_attachments);
    assert!(o.show_multiparts);
    assert!(!o.show_plain_texts_signature);
    assert!(o.show_inline_attachments);
}

#[test]
fn interpret_command_carries_the_message() {
    let cmd = InterpretCommand {
        mime: MessageArg { raw: vec![] },
        include_header: Some(strings(&["Subject"])),
        exclude_header: None,
        include_part: None,
        exclude_part: Some(strings(&["text/html"])),
        show_multiparts: true,
        save_attachments: false,
        save_attachments_dir: None,
        hide_attachments: false,
        hide_inline_attachments: true,
        hide_plain_texts_signature: false,
    };
    let settings: InterpreterSettings = cmd.settings("MIME".into());
    assert_eq!(settings.mime.as_deref(), Some("MIME"));
    let (mime, o) = settings.read_options(Account::default());
    assert_eq!(mime.as_deref(), Some("MIME"));
    assert_eq!(o.filter_headers, FilterHeaders::Include(strings(&["Subject"])));
    assert_eq!(o.filter_parts, FilterParts::Exclude(strings(&["text/html"])));
    assert!(o.show_multiparts);
    assert!(!o.show_inline_attachments);

    let cmd = mml::interpreter::cli::InterpretCommand {
        mime: Some("raw".into()),
        include_header: None,
        exclude_header: None,
        include_part: None,
        exclude_part: None,
        show_multiparts: false,
        save_attachments: true,
        save_attachments_dir: Some("/tmp/att".into()),
        hide_attachments: false,
        hide_inline_attachments: false,
        hide_plain_texts_signature: false,
    };
    let (mime, o) = cmd.settings().read_options(Account::default());
    assert_eq!(mime.as_deref(), Some("raw"));
    assert!(o.save_attachments);
    assert_eq!(o.save_attachments_dir, Some(std::path::PathBuf::from("/tmp/att")));
}

#[test]
fn command_line_filters_replace_the_account_filters() {
    let account = Account::default()
        .with_read_exclude_headers(Some(strings(&["Received"])))
        .with_read_exclude_parts(Some(strings(&["text/html"])));
    let mut cmd = read_command();
    cmd.include_header = Some(strings(&["From"]));
    cmd.include_part = Some(strings(&["text/plain"]));
    let (_, o) = cmd.settings().read_options(account.clone());
    assert_eq!(o.filter_headers, FilterHeaders::Include(strings(&["From"])));
    assert_eq!(o.filter_parts, FilterParts::Only("text/plain".into()));

    let (_, o) = read_command().settings().read_options(account);
    assert_eq!(o.filter_headers, FilterHeaders::Exclude(strings(&["Received"])));
    assert_eq!(o.filter_parts, FilterParts::Exclude(strings(&["text/html"])));
}
