//! The merged runtime account: the identity and section defaults a
//! command works with, built by layering, in order, the defaults (all
//! unset), the global configuration, the selected account of the
//! configuration, and the command-line arguments. A value set at a layer
//! wins over the layers before it; an unset value lets them show through.

use vstd::prelude::*;

use crate::cli::config::{AccountConfig, Config};
use crate::template::compose::TemplateComposeSignatureStyle;
use crate::template::forward::{ForwardTemplatePostingStyle, ForwardTemplateSignatureStyle};
use crate::template::reply::{ReplyTemplatePostingStyle, ReplyTemplateSignatureStyle};
use crate::text::{chars_of, extend_str, string_of};

verus! {

/// The signature delimiter used when none is configured: dash, dash,
/// space, line feed (RFC 3676).
pub const DEFAULT_SIGNATURE_DELIM: &'static str = "-- \n";

/// `b` when it is set, else `a`.
pub open spec fn pick<T>(a: Option<T>, b: Option<T>) -> Option<T> {
    if b is Some {
        b
    } else {
        a
    }
}

/// `b` when it is set to a non-empty text, else `a`: an empty address
/// or display name counts as unset.
pub open spec fn pick_text(a: Option<String>, b: Option<String>) -> Option<String> {
    if b matches Some(t) && t@.len() > 0 {
        b
    } else {
        a
    }
}

/// Whether `v` is set to a non-empty text.
fn is_set_text(v: &Option<String>) -> (r: bool)
    ensures
        r == (v matches Some(t) && t@.len() > 0),
{
    match v {
        Some(t) => t.as_str().unicode_len() > 0,
        None => false,
    }
}

/// Flat, merged identity and section defaults.
#[derive(Clone, Debug)]
pub struct Account {
    pub from: Option<String>,
    pub from_name: Option<String>,
    pub signature: Option<String>,
    pub signature_delim: Option<String>,
    pub compose_signature_style: Option<TemplateComposeSignatureStyle>,
    pub reply_signature_style: Option<ReplyTemplateSignatureStyle>,
    pub reply_posting_style: Option<ReplyTemplatePostingStyle>,
    pub reply_quote_headline: Option<String>,
    pub forward_signature_style: Option<ForwardTemplateSignatureStyle>,
    pub forward_posting_style: Option<ForwardTemplatePostingStyle>,
    pub forward_quote_headline: Option<String>,
    pub read_include_headers: Option<Vec<String>>,
    pub read_exclude_headers: Option<Vec<String>>,
    pub read_include_parts: Option<Vec<String>>,
    pub read_exclude_parts: Option<Vec<String>>,
    pub read_show_multiparts: Option<bool>,
    pub read_save_attachments: Option<bool>,
    pub read_save_attachments_dir: Option<std::path::PathBuf>,
    pub read_hide_attachments: Option<bool>,
    pub read_hide_inline_attachments: Option<bool>,
    pub read_hide_plain_texts_signature: Option<bool>,
}

impl Default for Account {
    /// The account with nothing set.
    fn default() -> (r: Self)
        ensures
            r == Account::unset(),
    {
        Account {
            from: None,
            from_name: None,
            signature: None,
            signature_delim: None,
            compose_signature_style: None,
            reply_signature_style: None,
            reply_posting_style: None,
            reply_quote_headline: None,
            forward_signature_style: None,
            forward_posting_style: None,
            forward_quote_headline: None,
            read_include_headers: None,
            read_exclude_headers: None,
            read_include_parts: None,
            read_exclude_parts: None,
            read_show_multiparts: None,
            read_save_attachments: None,
            read_save_attachments_dir: None,
            read_hide_attachments: None,
            read_hide_inline_attachments: None,
            read_hide_plain_texts_signature: None,
        }
    }
}

/// `a` with the values set in `b` on top (see [`Account::merge`]).
pub open spec fn merged(a: Account, b: Account) -> Account {
    Account {
        from: pick_text(a.from, b.from),
        from_name: pick_text(a.from_name, b.from_name),
        signature: pick(a.signature, b.signature),
        signature_delim: pick(a.signature_delim, b.signature_delim),
        compose_signature_style: pick(a.compose_signature_style, b.compose_signature_style),
        reply_signature_style: pick(a.reply_signature_style, b.reply_signature_style),
        reply_posting_style: pick(a.reply_posting_style, b.reply_posting_style),
        reply_quote_headline: pick(a.reply_quote_headline, b.reply_quote_headline),
        forward_signature_style: pick(a.forward_signature_style, b.forward_signature_style),
        forward_posting_style: pick(a.forward_posting_style, b.forward_posting_style),
        forward_quote_headline: pick(a.forward_quote_headline, b.forward_quote_headline),
        read_include_headers: pick(a.read_include_headers, b.read_include_headers),
        read_exclude_headers: pick(a.read_exclude_headers, b.read_exclude_headers),
        read_include_parts: pick(a.read_include_parts, b.read_include_parts),
        read_exclude_parts: pick(a.read_exclude_parts, b.read_exclude_parts),
        read_show_multiparts: pick(a.read_show_multiparts, b.read_show_multiparts),
        read_save_attachments: pick(a.read_save_attachments, b.read_save_attachments),
        read_save_attachments_dir: pick(a.read_save_attachments_dir, b.read_save_attachments_dir),
        read_hide_attachments: pick(a.read_hide_attachments, b.read_hide_attachments),
        read_hide_inline_attachments: pick(a.read_hide_inline_attachments, b.read_hide_inline_attachments),
        read_hide_plain_texts_signature: pick(a.read_hide_plain_texts_signature, b.read_hide_plain_texts_signature),
    }
}

impl Account {
    /// The account with nothing set.
    pub open spec fn unset() -> Account {
        Account {
            from: None,
            from_name: None,
            signature: None,
            signature_delim: None,
            compose_signature_style: None,
            reply_signature_style: None,
            reply_posting_style: None,
            reply_quote_headline: None,
            forward_signature_style: None,
            forward_posting_style: None,
            forward_quote_headline: None,
            read_include_headers: None,
            read_exclude_headers: None,
            read_include_parts: None,
            read_exclude_parts: None,
            read_show_multiparts: None,
            read_save_attachments: None,
            read_save_attachments_dir: None,
            read_hide_attachments: None,
            read_hide_inline_attachments: None,
            read_hide_plain_texts_signature: None,
        }
    }

    /// The signature body, empty when unset.
    pub open spec fn signature_body(self) -> Seq<char> {
        match self.signature {
            Some(s) => s@,
            None => Seq::<char>::empty(),
        }
    }

    /// The signature delimiter, [`DEFAULT_SIGNATURE_DELIM`] when unset.
    pub open spec fn signature_delimiter(self) -> Seq<char> {
        match self.signature_delim {
            Some(d) => d@,
            None => DEFAULT_SIGNATURE_DELIM@,
        }
    }

    /// The final signature: the delimiter followed by the body, or
    /// nothing when the body is unset or empty.
    pub open spec fn signature_text(self) -> Seq<char> {
        if self.signature_body().len() == 0 {
            Seq::<char>::empty()
        } else {
            self.signature_delimiter() + self.signature_body()
        }
    }

    /// The final signature: the delimiter (by default
    /// [`DEFAULT_SIGNATURE_DELIM`]) followed by the body; empty when the
    /// body is unset or empty.
    pub fn signature(&self) -> (r: String)
        ensures
            r@ == self.signature_text(),
    {
        let empty = String::new();
        let body = match &self.signature {
            Some(s) => s,
            None => &empty,
        };
        if body.as_str().unicode_len() == 0 {
            return String::new();
        }
        let mut out = match &self.signature_delim {
            Some(d) => chars_of(d.as_str()),
            None => chars_of(DEFAULT_SIGNATURE_DELIM),
        };
        extend_str(&mut out, body.as_str());
        string_of(&out)
    }

    /// Sets `from` when `v` is set to a non-empty address; leaves the
    /// account as it is otherwise.
    pub fn with_from(self, v: Option<String>) -> (r: Self)
        ensures
            r == (Account { from: pick_text(self.from, v), ..self }),
    {
        let mut s = self;
        if is_set_text(&v) {
            s.from = v;
        }
        s
    }

    /// Sets `from_name` when `v` is set to a non-empty name; leaves the
    /// account as it is otherwise.
    pub fn with_from_name(self, v: Option<String>) -> (r: Self)
        ensures
            r == (Account { from_name: pick_text(self.from_name, v), ..self }),
    {
        let mut s = self;
        if is_set_text(&v) {
            s.from_name = v;
        }
        s
    }

    /// Sets `signature` when `v` is set; leaves the account as it is otherwise.
    pub fn with_signature(self, v: Option<String>) -> (r: Self)
        ensures
            r == (Account { signature: pick(self.signature, v), ..self }),
    {
        let mut s = self;
        if v.is_some() {
            s.signature = v;
        }
        s
    }

    /// Sets `signature_delim` when `v` is set; leaves the account as it is otherwise.
    pub fn with_signature_delim(self, v: Option<String>) -> (r: Self)
        ensures
            r == (Account { signature_delim: pick(self.signature_delim, v), ..self }),
    {
        let mut s = self;
        if v.is_some() {
            s.signature_delim = v;
        }
        s
    }

    /// Sets `compose_signature_style` when `v` is set; leaves the account as it is otherwise.
    pub fn with_compose_signature_style(self, v: Option<TemplateComposeSignatureStyle>) -> (r: Self)
        ensures
            r == (Account { compose_signature_style: pick(self.compose_signature_style, v), ..self }),
    {
        let mut s = self;
        if v.is_some() {
            s.compose_signature_style = v;
        }
        s
    }

    /// Sets `reply_signature_style` when `v` is set; leaves the account as it is otherwise.
    pub fn with_reply_signature_style(self, v: Option<ReplyTemplateSignatureStyle>) -> (r: Self)
        ensures
            r == (Account { reply_signature_style: pick(self.reply_signature_style, v), ..self }),
    {
        let mut s = self;
        if v.is_some() {
            s.reply_signature_style = v;
        }
        s
    }

    /// Sets `reply_posting_style` when `v` is set; leaves the account as it is otherwise.
    pub fn with_reply_posting_style(self, v: Option<ReplyTemplatePostingStyle>) -> (r: Self)
        ensures
            r == (Account { reply_posting_style: pick(self.reply_posting_style, v), ..self }),
    {
        let mut s = self;
        if v.is_some() {
            s.reply_posting_style = v;
        }
        s
    }

    /// Sets `reply_quote_headline` when `v` is set; leaves the account as it is otherwise.
    pub fn with_reply_quote_headline(self, v: Option<String>) -> (r: Self)
        ensures
            r == (Account { reply_quote_headline: pick(self.reply_quote_headline, v), ..self }),
    {
        let mut s = self;
        if v.is_some() {
            s.reply_quote_headline = v;
        }
        s
    }

    /// Sets `forward_signature_style` when `v` is set; leaves the account as it is otherwise.
    pub fn with_forward_signature_style(self, v: Option<ForwardTemplateSignatureStyle>) -> (r: Self)
        ensures
            r == (Account { forward_signature_style: pick(self.forward_signature_style, v), ..self }),
    {
        let mut s = self;
        if v.is_some() {
            s.forward_signature_style = v;
        }
        s
    }

    /// Sets `forward_posting_style` when `v` is set; leaves the account as it is otherwise.
    pub fn with_forward_posting_style(self, v: Option<ForwardTemplatePostingStyle>) -> (r: Self)
        ensures
            r == (Account { forward_posting_style: pick(self.forward_posting_style, v), ..self }),
    {
        let mut s = self;
        if v.is_some() {
            s.forward_posting_style = v;
        }
        s
    }

    /// Sets `forward_quote_headline` when `v` is set; leaves the account as it is otherwise.
    pub fn with_forward_quote_headline(self, v: Option<String>) -> (r: Self)
        ensures
            r == (Account { forward_quote_headline: pick(self.forward_quote_headline, v), ..self }),
    {
        let mut s = self;
        if v.is_some() {
            s.forward_quote_headline = v;
        }
        s
    }

    /// Sets `read_include_headers` when `v` is set; leaves the account as it is otherwise.
    pub fn with_read_include_headers(self, v: Option<Vec<String>>) -> (r: Self)
        ensures
            r == (Account { read_include_headers: pick(self.read_include_headers, v), ..self }),
    {
        let mut s = self;
        if v.is_some() {
            s.read_include_headers = v;
        }
        s
    }

    /// Sets `read_exclude_headers` when `v` is set; leaves the account as it is otherwise.
    pub fn with_read_exclude_headers(self, v: Option<Vec<String>>) -> (r: Self)
        ensures
            r == (Account { read_exclude_headers: pick(self.read_exclude_headers, v), ..self }),
    {
        let mut s = self;
        if v.is_some() {
            s.read_exclude_headers = v;
        }
        s
    }

    /// Sets `read_include_parts` when `v` is set; leaves the account as it is otherwise.
    pub fn with_read_include_parts(self, v: Option<Vec<String>>) -> (r: Self)
        ensures
            r == (Account { read_include_parts: pick(self.read_include_parts, v), ..self }),
    {
        let mut s = self;
        if v.is_some() {
            s.read_include_parts = v;
        }
        s
    }

    /// Sets `read_exclude_parts` when `v` is set; leaves the account as it is otherwise.
    pub fn with_read_exclude_parts(self, v: Option<Vec<String>>) -> (r: Self)
        ensures
            r == (Account { read_exclude_parts: pick(self.read_exclude_parts, v), ..self }),
    {
        let mut s = self;
        if v.is_some() {
            s.read_exclude_parts = v;
        }
        s
    }

    /// Sets `read_show_multiparts` when `v` is set; leaves the account as it is otherwise.
    pub fn with_read_show_multiparts(self, v: Option<bool>) -> (r: Self)
        ensures
            r == (Account { read_show_multiparts: pick(self.read_show_multiparts, v), ..self }),
    {
        let mut s = self;
        if v.is_some() {
            s.read_show_multiparts = v;
        }
        s
    }

    /// Sets `read_save_attachments` when `v` is set; leaves the account as it is otherwise.
    pub fn with_read_save_attachments(self, v: Option<bool>) -> (r: Self)
        ensures
            r == (Account { read_save_attachments: pick(self.read_save_attachments, v), ..self }),
    {
        let mut s = self;
        if v.is_some() {
            s.read_save_attachments = v;
        }
        s
    }

    /// Sets `read_save_attachments_dir` when `v` is set; leaves the account as it is otherwise.
    pub fn with_read_save_attachments_dir(self, v: Option<std::path::PathBuf>) -> (r: Self)
        ensures
            r == (Account { read_save_attachments_dir: pick(self.read_save_attachments_dir, v), ..self }),
    {
        let mut s = self;
        if v.is_some() {
            s.read_save_attachments_dir = v;
        }
        s
    }

    /// Sets `read_hide_attachments` when `v` is set; leaves the account as it is otherwise.
    pub fn with_read_hide_attachments(self, v: Option<bool>) -> (r: Self)
        ensures
            r == (Account { read_hide_attachments: pick(self.read_hide_attachments, v), ..self }),
    {
        let mut s = self;
        if v.is_some() {
            s.read_hide_attachments = v;
        }
        s
    }

    /// Sets `read_hide_inline_attachments` when `v` is set; leaves the account as it is otherwise.
    pub fn with_read_hide_inline_attachments(self, v: Option<bool>) -> (r: Self)
        ensures
            r == (Account { read_hide_inline_attachments: pick(self.read_hide_inline_attachments, v), ..self }),
    {
        let mut s = self;
        if v.is_some() {
            s.read_hide_inline_attachments = v;
        }
        s
    }

    /// Sets `read_hide_plain_texts_signature` when `v` is set; leaves the account as it is otherwise.
    pub fn with_read_hide_plain_texts_signature(self, v: Option<bool>) -> (r: Self)
        ensures
            r == (Account { read_hide_plain_texts_signature: pick(self.read_hide_plain_texts_signature, v), ..self }),
    {
        let mut s = self;
        if v.is_some() {
            s.read_hide_plain_texts_signature = v;
        }
        s
    }

    /// Folds the set values of `other` on top of `self`: each value is
    /// taken from `other` when set there (the address and the display
    /// name when set to a non-empty text), otherwise from `self`.
    pub fn merge(self, other: Self) -> (r: Self)
        ensures
            r == merged(self, other),
    {
        Account {
            from: if is_set_text(&other.from) {
                other.from
            } else {
                self.from
            },
            from_name: if is_set_text(&other.from_name) {
                other.from_name
            } else {
                self.from_name
            },
            signature: match other.signature {
                Some(v) => Some(v),
                None => self.signature,
            },
            signature_delim: match other.signature_delim {
                Some(v) => Some(v),
                None => self.signature_delim,
            },
            compose_signature_style: match other.compose_signature_style {
                Some(v) => Some(v),
                None => self.compose_signature_style,
            },
            reply_signature_style: match other.reply_signature_style {
                Some(v) => Some(v),
                None => self.reply_signature_style,
            },
            reply_posting_style: match other.reply_posting_style {
                Some(v) => Some(v),
                None => self.reply_posting_style,
            },
            reply_quote_headline: match other.reply_quote_headline {
                Some(v) => Some(v),
                None => self.reply_quote_headline,
            },
            forward_signature_style: match other.forward_signature_style {
                Some(v) => Some(v),
                None => self.forward_signature_style,
            },
            forward_posting_style: match other.forward_posting_style {
                Some(v) => Some(v),
                None => self.forward_posting_style,
            },
            forward_quote_headline: match other.forward_quote_headline {
                Some(v) => Some(v),
                None => self.forward_quote_headline,
            },
            read_include_headers: match other.read_include_headers {
                Some(v) => Some(v),
                None => self.read_include_headers,
            },
            read_exclude_headers: match other.read_exclude_headers {
                Some(v) => Some(v),
                None => self.read_exclude_headers,
            },
            read_include_parts: match other.read_include_parts {
                Some(v) => Some(v),
                None => self.read_include_parts,
            },
            read_exclude_parts: match other.read_exclude_parts {
                Some(v) => Some(v),
                None => self.read_exclude_parts,
            },
            read_show_multiparts: match other.read_show_multiparts {
                Some(v) => Some(v),
                None => self.read_show_multiparts,
            },
            read_save_attachments: match other.read_save_attachments {
                Some(v) => Some(v),
                None => self.read_save_attachments,
            },
            read_save_attachments_dir: match other.read_save_attachments_dir {
                Some(v) => Some(v),
                None => self.read_save_attachments_dir,
            },
            read_hide_attachments: match other.read_hide_attachments {
                Some(v) => Some(v),
                None => self.read_hide_attachments,
            },
            read_hide_inline_attachments: match other.read_hide_inline_attachments {
                Some(v) => Some(v),
                None => self.read_hide_inline_attachments,
            },
            read_hide_plain_texts_signature: match other.read_hide_plain_texts_signature {
                Some(v) => Some(v),
                None => self.read_hide_plain_texts_signature,
            },
        }
    }
}

/// Merging an account with nothing set on top changes nothing, and
/// merging over an account with nothing set gives the top account back,
/// but for an empty address or display name, which counts as unset.
pub proof fn lemma_merge_unset(a: Account)
    ensures
        merged(a, Account::unset()) == a,
        merged(Account::unset(), a) == (Account {
            from: pick_text(None, a.from),
            from_name: pick_text(None, a.from_name),
            ..a
        }),
{
}

/// Layers can be grouped either way: putting `c` on the merge of `a` and
/// `b` is putting the merge of `b` and `c` on `a`.
pub proof fn lemma_merge_associative(a: Account, b: Account, c: Account)
    ensures
        merged(merged(a, b), c) == merged(a, merged(b, c)),
{
    lemma_pick_text_associative(a.from, b.from, c.from);
    lemma_pick_text_associative(a.from_name, b.from_name, c.from_name);
}

/// Picking the set text is associative.
proof fn lemma_pick_text_associative(a: Option<String>, b: Option<String>, c: Option<String>)
    ensures
        pick_text(pick_text(a, b), c) == pick_text(a, pick_text(b, c)),
{
}

/// Merging an account on top of itself changes nothing.
pub proof fn lemma_merge_idempotent(a: Account)
    ensures
        merged(a, a) == a,
{
}

/// The account a command works with, layered from the account with
/// nothing set: the global configuration, then the configuration of the
/// selected account when one is selected.
pub fn configured_account(config: Config, selected: Option<AccountConfig>) -> (r: Account)
    ensures
        r == match selected {
            Some(a) => merged(
                merged(Account::unset(), account_of_config(config)),
                account_of_account_config(a),
            ),
            None => merged(Account::unset(), account_of_config(config)),
        },
{
    let account = Account::default().merge(Account::from(config));
    match selected {
        Some(a) => account.merge(Account::from(a)),
        None => account,
    }
}

/// The account that the global configuration sets.
pub open spec fn account_of_config(config: Config) -> Account {
    Account {
            from: config.from,
            from_name: config.from_name,
            signature: config.signature,
            signature_delim: config.signature_delim,
            compose_signature_style: match config.compose {
                Some(c) => c.signature_style,
                None => None,
            },
            reply_signature_style: match config.reply {
                Some(c) => c.signature_style,
                None => None,
            },
            reply_posting_style: match config.reply {
                Some(c) => c.posting_style,
                None => None,
            },
            reply_quote_headline: match config.reply {
                Some(c) => c.quote_headline,
                None => None,
            },
            forward_signature_style: match config.forward {
                Some(c) => c.signature_style,
                None => None,
            },
            forward_posting_style: match config.forward {
                Some(c) => c.posting_style,
                None => None,
            },
            forward_quote_headline: match config.forward {
                Some(c) => c.quote_headline,
                None => None,
            },
            read_include_headers: match config.read {
                Some(c) => c.include_headers,
                None => None,
            },
            read_exclude_headers: match config.read {
                Some(c) => c.exclude_headers,
                None => None,
            },
            read_include_parts: match config.read {
                Some(c) => c.include_parts,
                None => None,
            },
            read_exclude_parts: match config.read {
                Some(c) => c.exclude_parts,
                None => None,
            },
            read_show_multiparts: match config.read {
                Some(c) => c.show_multiparts,
                None => None,
            },
            read_save_attachments: match config.read {
                Some(c) => c.save_attachments,
                None => None,
            },
            read_save_attachments_dir: match config.read {
                Some(c) => c.save_attachments_dir,
                None => None,
            },
            read_hide_attachments: match config.read {
                Some(c) => c.hide_attachments,
                None => None,
            },
            read_hide_inline_attachments: match config.read {
                Some(c) => c.hide_inline_attachments,
                None => None,
            },
            read_hide_plain_texts_signature: match config.read {
                Some(c) => c.hide_plain_texts_signature,
                None => None,
            },
        }
}

/// The account that a named account of the configuration sets.
pub open spec fn account_of_account_config(config: AccountConfig) -> Account {
    Account {
            from: config.from,
            from_name: config.from_name,
            signature: config.signature,
            signature_delim: config.signature_delim,
            compose_signature_style: match config.compose {
                Some(c) => c.signature_style,
                None => None,
            },
            reply_signature_style: match config.reply {
                Some(c) => c.signature_style,
                None => None,
            },
            reply_posting_style: match config.reply {
                Some(c) => c.posting_style,
                None => None,
            },
            reply_quote_headline: match config.reply {
                Some(c) => c.quote_headline,
                None => None,
            },
            forward_signature_style: match config.forward {
                Some(c) => c.signature_style,
                None => None,
            },
            forward_posting_style: match config.forward {
                Some(c) => c.posting_style,
                None => None,
            },
            forward_quote_headline: match config.forward {
                Some(c) => c.quote_headline,
                None => None,
            },
            read_include_headers: match config.read {
                Some(c) => c.include_headers,
                None => None,
            },
            read_exclude_headers: match config.read {
                Some(c) => c.exclude_headers,
                None => None,
            },
            read_include_parts: match config.read {
                Some(c) => c.include_parts,
                None => None,
            },
            read_exclude_parts: match config.read {
                Some(c) => c.exclude_parts,
                None => None,
            },
            read_show_multiparts: match config.read {
                Some(c) => c.show_multiparts,
                None => None,
            },
            read_save_attachments: match config.read {
                Some(c) => c.save_attachments,
                None => None,
            },
            read_save_attachments_dir: match config.read {
                Some(c) => c.save_attachments_dir,
                None => None,
            },
            read_hide_attachments: match config.read {
                Some(c) => c.hide_attachments,
                None => None,
            },
            read_hide_inline_attachments: match config.read {
                Some(c) => c.hide_inline_attachments,
                None => None,
            },
            read_hide_plain_texts_signature: match config.read {
                Some(c) => c.hide_plain_texts_signature,
                None => None,
            },
        }
}

impl From<Config> for Account {
    /// The identity and sections of the global configuration; an absent
    /// section sets nothing.
    fn from(config: Config) -> (r: Self) {
        let compose = config.compose;
        let reply = config.reply;
        let forward = config.forward;
        let read = config.read;
        let (compose_signature_style,) = match compose {
            Some(c) => (c.signature_style,),
            None => (None,),
        };
        let (reply_signature_style, reply_posting_style, reply_quote_headline) = match reply {
            Some(c) => (c.signature_style, c.posting_style, c.quote_headline),
            None => (None, None, None),
        };
        let (forward_signature_style, forward_posting_style, forward_quote_headline) = match forward {
            Some(c) => (c.signature_style, c.posting_style, c.quote_headline),
            None => (None, None, None),
        };
        let (
            read_include_headers,
            read_exclude_headers,
            read_include_parts,
            read_exclude_parts,
            read_show_multiparts,
            read_save_attachments,
            read_save_attachments_dir,
            read_hide_attachments,
            read_hide_inline_attachments,
            read_hide_plain_texts_signature,
        ) = match read {
            Some(c) => (
                c.include_headers,
                c.exclude_headers,
                c.include_parts,
                c.exclude_parts,
                c.show_multiparts,
                c.save_attachments,
                c.save_attachments_dir,
                c.hide_attachments,
                c.hide_inline_attachments,
                c.hide_plain_texts_signature,
            ),
            None => (None, None, None, None, None, None, None, None, None, None),
        };
        Account {
            from: config.from,
            from_name: config.from_name,
            signature: config.signature,
            signature_delim: config.signature_delim,
            compose_signature_style,
            reply_signature_style,
            reply_posting_style,
            reply_quote_headline,
            forward_signature_style,
            forward_posting_style,
            forward_quote_headline,
            read_include_headers,
            read_exclude_headers,
            read_include_parts,
            read_exclude_parts,
            read_show_multiparts,
            read_save_attachments,
            read_save_attachments_dir,
            read_hide_attachments,
            read_hide_inline_attachments,
            read_hide_plain_texts_signature,
        }
    }
}

impl vstd::std_specs::convert::FromSpecImpl<Config> for Account {
    open spec fn obeys_from_spec() -> bool {
        true
    }

    open spec fn from_spec(v: Config) -> Account {
        account_of_config(v)
    }
}

impl From<AccountConfig> for Account {
    /// The identity and sections of a named account; an absent section
    /// sets nothing.
    fn from(config: AccountConfig) -> (r: Self) {
        let compose = config.compose;
        let reply = config.reply;
        let forward = config.forward;
        let read = config.read;
        let (compose_signature_style,) = match compose {
            Some(c) => (c.signature_style,),
            None => (None,),
        };
        let (reply_signature_style, reply_posting_style, reply_quote_headline) = match reply {
            Some(c) => (c.signature_style, c.posting_style, c.quote_headline),
            None => (None, None, None),
        };
        let (forward_signature_style, forward_posting_style, forward_quote_headline) = match forward {
            Some(c) => (c.signature_style, c.posting_style, c.quote_headline),
            None => (None, None, None),
        };
        let (
            read_include_headers,
            read_exclude_headers,
            read_include_parts,
            read_exclude_parts,
            read_show_multiparts,
            read_save_attachments,
            read_save_attachments_dir,
            read_hide_attachments,
            read_hide_inline_attachments,
            read_hide_plain_texts_signature,
        ) = match read {
            Some(c) => (
                c.include_headers,
                c.exclude_headers,
                c.include_parts,
                c.exclude_parts,
                c.show_multiparts,
                c.save_attachments,
                c.save_attachments_dir,
                c.hide_attachments,
                c.hide_inline_attachments,
                c.hide_plain_texts_signature,
            ),
            None => (None, None, None, None, None, None, None, None, None, None),
        };
        Account {
            from: config.from,
            from_name: config.from_name,
            signature: config.signature,
            signature_delim: config.signature_delim,
            compose_signature_style,
            reply_signature_style,
            reply_posting_style,
            reply_quote_headline,
            forward_signature_style,
            forward_posting_style,
            forward_quote_headline,
            read_include_headers,
            read_exclude_headers,
            read_include_parts,
            read_exclude_parts,
            read_show_multiparts,
            read_save_attachments,
            read_save_attachments_dir,
            read_hide_attachments,
            read_hide_inline_attachments,
            read_hide_plain_texts_signature,
        }
    }
}

impl vstd::std_specs::convert::FromSpecImpl<AccountConfig> for Account {
    open spec fn obeys_from_spec() -> bool {
        true
    }

    open spec fn from_spec(v: AccountConfig) -> Account {
        account_of_account_config(v)
    }
}

} // verus!
