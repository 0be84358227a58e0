//! `template forward`: the draft that forwards a message, printed as it
//! is, without going through the editor.

use vstd::prelude::*;

use crate::cli::account::{pick, pick_text, Account};
use crate::cli::args::{HeaderRawArgs, MessageArg};
use crate::cli::forward::{command_forward_headline, forward_args, forwards, unescaped_headline};
use crate::error::MmlError;
use crate::mime::parses_as_message;
use crate::template::forward::{
    build, forward_draft, BuildForwardTemplateArgs, ForwardTemplatePostingStyle,
    ForwardTemplateSignatureStyle,
};
use crate::template::message::SourceMessage;
use crate::template::types::Template;

verus! {

/// Print the draft that forwards a message.
pub struct TemplateForwardCommand {
    pub mime: MessageArg,
    /// Address of the `From` header; overrides the account's.
    pub from: Option<String>,
    /// Display name of the `From` header.
    pub from_name: Option<String>,
    /// The signature, read from its file when the argument names one.
    pub signature: Option<String>,
    /// How the signature is added.
    pub signature_style: Option<ForwardTemplateSignatureStyle>,
    /// Where the forwarded message goes.
    pub posting_style: Option<ForwardTemplatePostingStyle>,
    /// The line above the forwarded message; a written-out `\n` stands
    /// for a line feed.
    pub quote_headline: Option<String>,
    pub headers: HeaderRawArgs,
    /// The body the draft starts with.
    pub body: String,
}

impl TemplateForwardCommand {
    /// The account with the command line on top: address, display name,
    /// signature and forward styles, each where it is given.
    pub open spec fn layered(&self, account: Account) -> Account {
        Account {
            from: pick_text(account.from, self.from),
            from_name: pick_text(account.from_name, self.from_name),
            signature: pick(account.signature, self.signature),
            forward_signature_style: pick(account.forward_signature_style, self.signature_style),
            forward_posting_style: pick(account.forward_posting_style, self.posting_style),
            ..account
        }
    }

    /// The draft to print for the source message `mime`: the missing
    /// `From` error when neither the account nor the command line gives
    /// an address; else the MIME error when `mime` is not a message; else
    /// the forward of the parsed message built from the layered account
    /// and the headline of [`command_forward_headline`] (see
    /// [`forwards`]).
    pub fn execute(self, account: Account, mime: &[u8]) -> (r: Result<Template, MmlError>)
        requires
            self.headers.raw@.len() + self.body@.len() + 5 <= usize::MAX,
        ensures
            self.layered(account).from is None ==> r == Err::<Template, MmlError>(
                MmlError::MissingFromError,
            ),
            self.layered(account).from is Some && !parses_as_message(mime@) ==> r == Err::<
                Template,
                MmlError,
            >(MmlError::ParseMimeMessageError),
            self.layered(account).from is Some && parses_as_message(mime@) ==> (r matches Ok(t)
                && exists|msg: SourceMessage, args: BuildForwardTemplateArgs|
                #![trigger msg.parsed_from(mime@), forward_draft(&msg, args, t)]
                msg.parsed_from(mime@) && forwards(
                    Ok(args),
                    self.layered(account),
                    command_forward_headline(account, self.quote_headline),
                    self.headers.raw,
                    self.body,
                ) && forward_draft(&msg, args, t)),
    {
        let given = unescaped_headline(self.quote_headline);
        let a = account.with_from(self.from).with_from_name(self.from_name).with_signature(
            self.signature,
        ).with_forward_signature_style(self.signature_style).with_forward_posting_style(
            self.posting_style,
        );
        let args = match forward_args(a, given, self.headers.raw, self.body) {
            Ok(args) => args,
            Err(e) => return Err(e),
        };
        let msg = match SourceMessage::parse(mime) {
            Some(msg) => msg,
            None => return Err(MmlError::ParseMimeMessageError),
        };
        let ghost g = args;
        let r = build(&msg, args);
        assert(r matches Ok(t) && msg.parsed_from(mime@) && forward_draft(&msg, g, t));
        r
    }
}

} // verus!
