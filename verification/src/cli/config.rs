//! The configuration of the `mml` command: global identity and section
//! defaults, and named accounts that override them.
//!
//! Reading the TOML file is left to the program; the library holds what
//! it reads and picks the account to use.

use vstd::prelude::*;

use crate::template::compose::TemplateComposeSignatureStyle;
use crate::template::forward::{ForwardTemplatePostingStyle, ForwardTemplateSignatureStyle};
use crate::template::reply::{ReplyTemplatePostingStyle, ReplyTemplateSignatureStyle};

verus! {

/// `std::path::PathBuf`, a file system path, carried as it is.
#[verifier::external_type_specification]
#[verifier::external_body]
pub struct ExPathBuf(std::path::PathBuf);

/// The whole configuration.
#[derive(Clone, Debug, Default)]
pub struct Config {
    pub from: Option<String>,
    pub from_name: Option<String>,
    pub signature: Option<String>,
    pub signature_delim: Option<String>,
    pub compose: Option<ComposeConfig>,
    pub reply: Option<ReplyConfig>,
    pub forward: Option<ForwardConfig>,
    pub read: Option<ReadConfig>,
    /// The named accounts, each name once (see [`Config::well_formed`]).
    pub accounts: Vec<(String, AccountConfig)>,
}

/// A named identity: the same fields as [`Config`] (without the
/// accounts), plus the `default` mark.
#[derive(Clone, Debug, Default)]
pub struct AccountConfig {
    /// Whether this account is used when none is named.
    pub default: bool,
    pub from: Option<String>,
    pub from_name: Option<String>,
    pub signature: Option<String>,
    pub signature_delim: Option<String>,
    pub compose: Option<ComposeConfig>,
    pub reply: Option<ReplyConfig>,
    pub forward: Option<ForwardConfig>,
    pub read: Option<ReadConfig>,
}

/// The `[compose]` section.
#[derive(Clone, Debug, Default)]
pub struct ComposeConfig {
    pub signature_style: Option<TemplateComposeSignatureStyle>,
}

/// The `[reply]` section.
#[derive(Clone, Debug, Default)]
pub struct ReplyConfig {
    pub signature_style: Option<ReplyTemplateSignatureStyle>,
    pub posting_style: Option<ReplyTemplatePostingStyle>,
    pub quote_headline: Option<String>,
}

/// The `[forward]` section.
#[derive(Clone, Debug, Default)]
pub struct ForwardConfig {
    pub signature_style: Option<ForwardTemplateSignatureStyle>,
    pub posting_style: Option<ForwardTemplatePostingStyle>,
    pub quote_headline: Option<String>,
}

/// The `[read]` section.
#[derive(Clone, Debug, Default)]
pub struct ReadConfig {
    pub include_headers: Option<Vec<String>>,
    pub exclude_headers: Option<Vec<String>>,
    pub include_parts: Option<Vec<String>>,
    pub exclude_parts: Option<Vec<String>>,
    pub save_attachments: Option<bool>,
    pub save_attachments_dir: Option<std::path::PathBuf>,
    pub show_multiparts: Option<bool>,
    pub hide_attachments: Option<bool>,
    pub hide_inline_attachments: Option<bool>,
    pub hide_plain_texts_signature: Option<bool>,
}

/// Index of the first account called `name`, or the number of accounts.
pub open spec fn named_index(accounts: Seq<(String, AccountConfig)>, name: Seq<char>) -> int
    decreases accounts.len(),
{
    if accounts.len() == 0 {
        0
    } else if accounts[0].0@ == name {
        0
    } else {
        1 + named_index(accounts.skip(1), name)
    }
}

/// Index of the first account marked `default`, or the number of
/// accounts.
pub open spec fn default_index(accounts: Seq<(String, AccountConfig)>) -> int
    decreases accounts.len(),
{
    if accounts.len() == 0 {
        0
    } else if accounts[0].1.default {
        0
    } else {
        1 + default_index(accounts.skip(1))
    }
}

proof fn lemma_named_index(accounts: Seq<(String, AccountConfig)>, name: Seq<char>, k: int)
    requires
        0 <= k <= accounts.len(),
        forall|j: int| 0 <= j < k ==> accounts[j].0@ != name,
        k == accounts.len() || accounts[k].0@ == name,
    ensures
        named_index(accounts, name) == k,
    decreases accounts.len(),
{
    if accounts.len() > 0 && k > 0 {
        lemma_named_index(accounts.skip(1), name, k - 1);
    }
}

proof fn lemma_default_index(accounts: Seq<(String, AccountConfig)>, k: int)
    requires
        0 <= k <= accounts.len(),
        forall|j: int| 0 <= j < k ==> !accounts[j].1.default,
        k == accounts.len() || accounts[k].1.default,
    ensures
        default_index(accounts) == k,
    decreases accounts.len(),
{
    if accounts.len() > 0 && k > 0 {
        lemma_default_index(accounts.skip(1), k - 1);
    }
}

/// No two accounts share a name.
pub open spec fn names_distinct(accounts: Seq<(String, AccountConfig)>) -> bool {
    forall|i: int, j: int| 0 <= i < j < accounts.len() ==> accounts[i].0@ != accounts[j].0@
}

/// Removing an account keeps the names distinct.
proof fn lemma_names_distinct_remove(accounts: Seq<(String, AccountConfig)>, k: int)
    requires
        0 <= k < accounts.len(),
        names_distinct(accounts),
    ensures
        names_distinct(accounts.remove(k)),
{
    let r = accounts.remove(k);
    assert forall|i: int, j: int| 0 <= i < j < r.len() implies r[i].0@ != r[j].0@ by {
        let i2 = if i < k { i } else { i + 1 };
        let j2 = if j < k { j } else { j + 1 };
        assert(r[i] == accounts[i2]);
        assert(r[j] == accounts[j2]);
    }
}

impl Config {
    /// The configuration is well formed: its accounts have distinct names,
    /// as the keys of the `[accounts]` table do.
    pub open spec fn well_formed(&self) -> bool {
        names_distinct(self.accounts@)
    }
    /// The name of the project, used to find its configuration files.
    pub fn project_name() -> (r: &'static str)
        ensures
            r@ == "mml"@,
    {
        "mml"
    }

    /// Removes the first account called `name` and returns it with its
    /// name; `None`, leaving the accounts as they are, when there is no
    /// such account.
    pub fn take_named_account(&mut self, name: &str) -> (r: Option<(String, AccountConfig)>)
        ensures
            ({
                let i = named_index(old(self).accounts@, name@);
                if i < old(self).accounts@.len() {
                    r == Some(old(self).accounts@[i]) && final(self).accounts@ == old(
                        self,
                    ).accounts@.remove(i)
                } else {
                    r is None && final(self).accounts@ == old(self).accounts@
                }
            }),
            final(self).from == old(self).from,
            final(self).from_name == old(self).from_name,
            final(self).signature == old(self).signature,
            final(self).signature_delim == old(self).signature_delim,
            final(self).compose == old(self).compose,
            final(self).reply == old(self).reply,
            final(self).forward == old(self).forward,
            final(self).read == old(self).read,
            old(self).well_formed() ==> final(self).well_formed(),
    {
        let n = self.accounts.len();
        let target = name.to_owned();
        for i in 0..n
            invariant
                n == self.accounts@.len(),
                target@ == name@,
                *self == *old(self),
                forall|j: int| 0 <= j < i ==> self.accounts@[j].0@ != name@,
        {
            if self.accounts[i].0 == target {
                proof {
                    lemma_named_index(self.accounts@, name@, i as int);
                }
                proof {
                    if self.well_formed() {
                        lemma_names_distinct_remove(self.accounts@, i as int);
                    }
                }
                let entry = self.accounts.remove(i);
                return Some(entry);
            }
        }
        proof {
            lemma_named_index(self.accounts@, name@, n as int);
        }
        None
    }

    /// Removes the first account marked `default` and returns it with its
    /// name; `None`, leaving the accounts as they are, when no account is
    /// marked.
    pub fn take_default_account(&mut self) -> (r: Option<(String, AccountConfig)>)
        ensures
            ({
                let i = default_index(old(self).accounts@);
                if i < old(self).accounts@.len() {
                    r == Some(old(self).accounts@[i]) && final(self).accounts@ == old(
                        self,
                    ).accounts@.remove(i)
                } else {
                    r is None && final(self).accounts@ == old(self).accounts@
                }
            }),
            final(self).from == old(self).from,
            final(self).from_name == old(self).from_name,
            final(self).signature == old(self).signature,
            final(self).signature_delim == old(self).signature_delim,
            final(self).compose == old(self).compose,
            final(self).reply == old(self).reply,
            final(self).forward == old(self).forward,
            final(self).read == old(self).read,
            old(self).well_formed() ==> final(self).well_formed(),
    {
        let n = self.accounts.len();
        for i in 0..n
            invariant
                n == self.accounts@.len(),
                *self == *old(self),
                forall|j: int| 0 <= j < i ==> !self.accounts@[j].1.default,
        {
            if self.accounts[i].1.default {
                proof {
                    lemma_default_index(self.accounts@, i as int);
                }
                proof {
                    if self.well_formed() {
                        lemma_names_distinct_remove(self.accounts@, i as int);
                    }
                }
                let entry = self.accounts.remove(i);
                return Some(entry);
            }
        }
        proof {
            lemma_default_index(self.accounts@, n as int);
        }
        None
    }
}

} // verus!
