use mml::cli::account::{configured_account, Account, DEFAULT_SIGNATURE_DELIM};
use mml::cli::config::{AccountConfig, ComposeConfig, Config, ReplyConfig};
use mml::template::compose::TemplateComposeSignatureStyle;
use mml::template::reply::ReplyTemplatePostingStyle;

#[test]
fn signature_with_default_delimiter() {
    let account = Account::default().with_signature(Some("Regards".into()));
    assert_eq!(DEFAULT_SIGNATURE_DELIM, "-- \n");
    assert_eq!(account.signature(), "-- \nRegards");
}

#[test]
fn signature_with_custom_delimiter() {
    let account = Account::default()
        .with_signature(Some("Regards".into()))
        .with_signature_delim(Some("~~\n".into()));
    assert_eq!(account.signature(), "~~\nRegards");
}

#[test]
fn empty_or_unset_signature_is_dropped() {
    assert_eq!(Account::default().signature(), "");
    let account = Account::default()
        .with_signature(Some(String::new()))
        .with_signature_delim(Some("~~\n".into()));
    assert_eq!(account.signature(), "");
}

#[test]
fn setter_keeps_value_when_unset() {
    let account = Account::default()
        .with_from(Some("a@localhost".into()))
        .with_from(None)
        .with_read_show_multiparts(Some(true))
        .with_read_show_multiparts(None);
    assert_eq!(account.from.as_deref(), Some("a@localhost"));
    assert_eq!(account.read_show_multiparts, Some(true));

    let account = account.with_from(Some("b@localhost".into()));
    assert_eq!(account.from.as_deref(), Some("b@localhost"));
}

#[test]
fn merge_prefers_the_top_layer() {
    let lower = Account::default()
        .with_from(Some("lower@localhost".into()))
        .with_from_name(Some("Lower".into()))
        .with_reply_posting_style(Some(ReplyTemplatePostingStyle::Bottom));
    let upper = Account::default()
        .with_from(Some("upper@localhost".into()))
        .with_signature(Some("sig".into()));
    let merged = lower.merge(upper);
    assert_eq!(merged.from.as_deref(), Some("upper@localhost"));
    assert_eq!(merged.from_name.as_deref(), Some("Lower"));
    assert_eq!(merged.signature.as_deref(), Some("sig"));
    assert_eq!(merged.reply_posting_style, Some(ReplyTemplatePostingStyle::Bottom));
    assert_eq!(merged.signature_delim, None);
}

#[test]
fn merge_with_unset_changes_nothing() {
    let account = Account::default()
        .with_from(Some("me@localhost".into()))
        .with_read_exclude_headers(Some(vec!["Received".into()]));
    let left = Account::default().merge(account.clone());
    let right = account.clone().merge(Account::default());
    for merged in [left, right] {
        assert_eq!(merged.from.as_deref(), Some("me@localhost"));
        assert_eq!(merged.read_exclude_headers, Some(vec!["Received".to_string()]));
        assert_eq!(merged.from_name, None);
    }
}

#[test]
fn configured_account_layers_the_selected_account() {
    let config = Config {
        from: Some("global@localhost".into()),
        from_name: Some("Global".into()),
        compose: Some(ComposeConfig {
            signature_style: Some(TemplateComposeSignatureStyle::Attached),
        }),
        ..Default::default()
    };
    let selected = AccountConfig {
        from: Some("work@localhost".into()),
        reply: Some(ReplyConfig {
            quote_headline: Some("Quoting:".into()),
            ..Default::default()
        }),
        ..Default::default()
    };

    let account = configured_account(config.clone(), Some(selected));
    assert_eq!(account.from.as_deref(), Some("work@localhost"));
    assert_eq!(account.from_name.as_deref(), Some("Global"));
    assert_eq!(account.compose_signature_style, Some(TemplateComposeSignatureStyle::Attached));
    assert_eq!(account.reply_quote_headline.as_deref(), Some("Quoting:"));

    let account = configured_account(config, None);
    assert_eq!(account.from.as_deref(), Some("global@localhost"));
    assert_eq!(account.reply_quote_headline, None);
}

#[test]
fn take_named_account_removes_it() {
    let mut config = Config {
        accounts: vec![
            ("home".into(), AccountConfig::default()),
            ("work".into(), AccountConfig { from: Some("w@localhost".into()), ..Default::default() }),
        ],
        ..Default::default()
    };
    let (name, account) = config.take_named_account("work").unwrap();
    assert_eq!(name, "work");
    assert_eq!(account.from.as_deref(), Some("w@localhost"));
    assert_eq!(config.accounts.len(), 1);
    assert_eq!(config.accounts[0].0, "home");
    assert!(config.take_named_account("work").is_none());
    assert_eq!(config.accounts.len(), 1);
}

#[test]
fn take_default_account_picks_the_marked_one() {
    let mut config = Config {
        accounts: vec![
            ("home".into(), AccountConfig::default()),
            ("work".into(), AccountConfig { default: true, ..Default::default() }),
        ],
        ..Default::default()
    };
    let (name, _) = config.take_default_account().unwrap();
    assert_eq!(name, "work");
    assert!(config.take_default_account().is_none());
    assert_eq!(Config::project_name(), "mml");
}

#[test]
fn merge_groups_either_way_and_is_idempotent() {
    let a = Account::default()
        .with_from(Some("a@localhost".into()))
        .with_from_name(Some("A".into()));
    let b = Account::default()
        .with_from(Some("b@localhost".into()))
        .with_signature(Some("B".into()));
    let c = Account::default()
        .with_signature(Some("C".into()))
        .with_signature_delim(Some("--\n".into()));
    let left = a.clone().merge(b.clone()).merge(c.clone());
    let right = a.clone().merge(b.merge(c));
    assert_eq!(left.from, right.from);
    assert_eq!(left.from_name, right.from_name);
    assert_eq!(left.signature, right.signature);
    assert_eq!(left.signature_delim, right.signature_delim);
    assert_eq!(left.signature(), "--\nC");

    let twice = a.clone().merge(a.clone());
    assert_eq!(twice.from, a.from);
    assert_eq!(twice.from_name, a.from_name);
}

#[test]
fn empty_address_and_name_count_as_unset() {
    let account = Account::default()
        .with_from(Some("me@localhost".into()))
        .with_from_name(Some("Me".into()))
        .with_from(Some(String::new()))
        .with_from_name(Some(String::new()));
    assert_eq!(account.from.as_deref(), Some("me@localhost"));
    assert_eq!(account.from_name.as_deref(), Some("Me"));

    let upper = Account { from: Some(String::new()), from_name: Some(String::new()), ..Account::default() };
    let merged = account.clone().merge(upper);
    assert_eq!(merged.from.as_deref(), Some("me@localhost"));
    assert_eq!(merged.from_name.as_deref(), Some("Me"));

    let config = Config { from: Some(String::new()), ..Default::default() };
    assert_eq!(configured_account(config, None).from, None);
}
