//! `template reply`: the draft that replies to a message, printed as it
//! is, without going through the editor.

use vstd::prelude::*;

use crate::cli::account::{pick, pick_text, Account};
use crate::cli::args::HeaderRawArgs;
use crate::cli::forward::text_or_empty;
use crate::cli::reply::{reply_args, replies};
use crate::error::MmlError;
use crate::template::reply::{
    BuildReplyTemplateArgs, ReplyTemplatePostingStyle, ReplyTemplateSignatureStyle,
};

verus! {

/// Print the draft that replies to a message.
pub struct TemplateReplyCommand {
    /// The source message, read from the file the argument names or
    /// given inline; standard input when unset.
    pub mime: Option<String>,
    /// Reply to every recipient of the source message, `Cc` included.
    pub reply_all: bool,
    /// Address of the `From` header; overrides the account's.
    pub from: Option<String>,
    /// Display name of the `From` header.
    pub from_name: Option<String>,
    /// The signature.
    pub signature: Option<String>,
    /// Where the signature goes.
    pub signature_style: Option<ReplyTemplateSignatureStyle>,
    /// Where the reply goes relative to the quoted message.
    pub posting_style: Option<ReplyTemplatePostingStyle>,
    /// The line above the quoted message.
    pub quote_headline: Option<String>,
    pub headers: HeaderRawArgs,
    /// The body the draft starts with.
    pub body: String,
}

impl TemplateReplyCommand {
    /// The account with the command line on top: address, display name,
    /// signature, reply styles and headline, each where it is given.
    pub open spec fn layered(&self, account: Account) -> Account {
        Account {
            from: pick_text(account.from, self.from),
            from_name: pick_text(account.from_name, self.from_name),
            signature: pick(account.signature, self.signature),
            reply_signature_style: pick(account.reply_signature_style, self.signature_style),
            reply_posting_style: pick(account.reply_posting_style, self.posting_style),
            reply_quote_headline: pick(account.reply_quote_headline, self.quote_headline),
            ..account
        }
    }

    /// What the draft is built from (see [`replies`]), the account layered
    /// with the command line. The source message is read by the caller.
    pub fn args(self, account: Account) -> (r: Result<BuildReplyTemplateArgs, MmlError>)
        ensures
            replies(
                r,
                self.layered(account),
                text_or_empty(self.layered(account).reply_quote_headline),
                self.reply_all,
                self.headers.raw,
                self.body,
            ),
    {
        let a = account.with_from(self.from).with_from_name(self.from_name).with_signature(
            self.signature,
        ).with_reply_signature_style(self.signature_style).with_reply_posting_style(
            self.posting_style,
        ).with_reply_quote_headline(self.quote_headline);
        reply_args(a, None, self.reply_all, self.headers.raw, self.body)
    }
}

} // verus!
