//! `compose`: the draft of a new message, made from the merged account and
//! the command line, before it goes to the editor.

use vstd::prelude::*;

use crate::cli::account::{merged, pick, pick_text, Account};
use crate::cli::args::HeaderRawArgs;
use crate::error::MmlError;
use crate::template::compose::{TemplateBuilderCompose, TemplateComposeSignatureStyle};

verus! {

/// Compose a new message in the editor.
pub struct ComposeCommand {
    /// Address of the `From` header; overrides the account's.
    pub from: Option<String>,
    /// Display name of the `From` header.
    pub from_name: Option<String>,
    /// The signature, read from its file when the argument names one.
    pub signature: Option<String>,
    /// How the signature is added.
    pub signature_style: Option<TemplateComposeSignatureStyle>,
    pub headers: HeaderRawArgs,
    /// The body the draft starts with.
    pub body: String,
    /// Where the compiled message goes; standard output when unset.
    pub output: Option<std::path::PathBuf>,
}

/// The signature style set, or the default one, inlined.
pub open spec fn compose_style(o: Option<TemplateComposeSignatureStyle>) -> TemplateComposeSignatureStyle {
    match o {
        Some(s) => s,
        None => TemplateComposeSignatureStyle::Inlined,
    }
}

/// `r` is what the draft of a new message is built from for the account
/// `a`: its address, display name, final signature and compose style,
/// with the given headers and body; or, when `a` has no address, the
/// missing `From` error.
pub open spec fn composes(
    r: Result<TemplateBuilderCompose, MmlError>,
    a: Account,
    headers: Vec<(String, String)>,
    body: String,
) -> bool {
    match r {
        Ok(b) => {
            &&& a.from == Some(b.from)
            &&& b.from_name == a.from_name
            &&& b.signature@ == a.signature_text()
            &&& b.signature_style == compose_style(a.compose_signature_style)
            &&& b.headers == headers
            &&& b.body == body
        },
        Err(e) => a.from is None && e == MmlError::MissingFromError,
    }
}

/// The builder of the draft of a new message for the (merged) account
/// `a`; fails when it has no `From` address.
pub fn compose_builder(a: Account, headers: Vec<(String, String)>, body: String) -> (r: Result<
    TemplateBuilderCompose,
    MmlError,
>)
    ensures
        composes(r, a, headers, body),
{
    let signature = a.signature();
    let signature_style = match a.compose_signature_style {
        Some(s) => s,
        None => TemplateComposeSignatureStyle::Inlined,
    };
    match a.from {
        Some(from) => Ok(
            TemplateBuilderCompose {
                signature,
                signature_style,
                from,
                from_name: a.from_name,
                headers,
                body,
            },
        ),
        None => Err(MmlError::MissingFromError),
    }
}

impl ComposeCommand {
    /// The command line as a layer of the merge: the values it gives,
    /// nothing else set.
    pub open spec fn as_layer(&self) -> Account {
        Account {
            from: self.from,
            from_name: self.from_name,
            signature: self.signature,
            compose_signature_style: self.signature_style,
            ..Account::unset()
        }
    }

    /// The command line always wins and the account fills in the blanks:
    /// layering the command line is merging its layer on top of the
    /// account.
    pub proof fn lemma_layered_is_merge(&self, account: Account)
        ensures
            self.layered(account) == merged(account, self.as_layer()),
    {
    }

    /// The account with the command line on top: address, display name,
    /// signature and signature style, each where it is given.
    pub open spec fn layered(&self, account: Account) -> Account {
        Account {
            from: pick_text(account.from, self.from),
            from_name: pick_text(account.from_name, self.from_name),
            signature: pick(account.signature, self.signature),
            compose_signature_style: pick(account.compose_signature_style, self.signature_style),
            ..account
        }
    }

    /// What the draft is built from (see [`composes`]), the account
    /// layered with the command line.
    pub fn builder(self, account: Account) -> (r: Result<TemplateBuilderCompose, MmlError>)
        ensures
            composes(r, self.layered(account), self.headers.raw, self.body),
    {
        let a = account.with_from(self.from).with_from_name(self.from_name).with_signature(
            self.signature,
        ).with_compose_signature_style(self.signature_style);
        compose_builder(a, self.headers.raw, self.body)
    }
}

} // verus!
