//! `template compose`, as the template commands give it: the draft of a
//! new message, printed as it is, without going through the editor.

use vstd::prelude::*;

use crate::cli::account::{pick, pick_text, Account};
use crate::cli::args::HeaderRawArgs;
use crate::cli::compose::{compose_builder, composes};
use crate::error::MmlError;
use crate::template::compose::{TemplateBuilderCompose, TemplateComposeSignatureStyle};
use crate::template::types::Template;

verus! {

/// Print the draft of a new message.
pub struct TemplateComposeCommand {
    /// Address of the `From` header; overrides the account's.
    pub from: Option<String>,
    /// Display name of the `From` header.
    pub from_name: Option<String>,
    /// The signature.
    pub signature: Option<String>,
    /// How the signature is added.
    pub signature_style: Option<TemplateComposeSignatureStyle>,
    pub headers: HeaderRawArgs,
    /// The body the draft starts with.
    pub body: String,
}

impl TemplateComposeCommand {
    /// The account with the command line on top: address, display name,
    /// signature and signature style, each where it is given.
    pub open spec fn layered(&self, account: Account) -> Account {
        Account {
            from: pick_text(account.from, self.from),
            from_name: pick_text(account.from_name, self.from_name),
            signature: pick(account.signature, self.signature),
            compose_signature_style: pick(account.compose_signature_style, self.signature_style),
            ..account
        }
    }

    /// The draft to print: built from the account layered with the
    /// command line (see [`composes`]); the missing `From` error when
    /// neither gives an address.
    pub fn execute(self, account: Account) -> (r: Result<Template, MmlError>)
        requires
            self.headers.raw@.len() + self.body@.len() + 5 <= usize::MAX,
        ensures
            self.layered(account).from is None <==> r == Err::<Template, MmlError>(
                MmlError::MissingFromError,
            ),
            self.layered(account).from is Some ==> (r matches Ok(t) && exists|b: TemplateBuilderCompose|
                composes(Ok(b), self.layered(account), self.headers.raw, self.body) && #[trigger] b.drafts(t)),
    {
        let a = account.with_from(self.from).with_from_name(self.from_name).with_signature(
            self.signature,
        ).with_compose_signature_style(self.signature_style);
        match compose_builder(a, self.headers.raw, self.body) {
            Ok(b) => {
                let ghost g = b;
                let r = b.build();
                assert(r matches Ok(t) && g.drafts(t));
                r
            },
            Err(e) => Err(e),
        }
    }
}

} // verus!
