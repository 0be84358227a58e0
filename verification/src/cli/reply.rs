//! `reply`: the draft that replies to a message, made from the merged
//! account and the command line, before it goes to the editor.

use vstd::prelude::*;

use crate::cli::account::{merged, pick, pick_text, Account};
use crate::cli::args::{HeaderRawArgs, MessageArg};
use crate::cli::forward::{string_or_empty, text_or_empty, unescaped_headline};
use crate::cli::stdin::unescaped_newlines;
use crate::error::MmlError;
use crate::template::reply::{
    BuildReplyTemplateArgs, ReplyTemplatePostingStyle, ReplyTemplateSignatureStyle,
};

verus! {

/// Reply to a message, editing the draft in the editor.
pub struct ReplyCommand {
    pub mime: MessageArg,
    /// Reply to every recipient of the source message, `Cc` included.
    pub reply_all: bool,
    /// Address of the `From` header; overrides the account's.
    pub from: Option<String>,
    /// Display name of the `From` header.
    pub from_name: Option<String>,
    /// The signature, read from its file when the argument names one.
    pub signature: Option<String>,
    /// Where the signature goes.
    pub signature_style: Option<ReplyTemplateSignatureStyle>,
    /// Where the reply goes relative to the quoted message.
    pub posting_style: Option<ReplyTemplatePostingStyle>,
    /// The line above the quoted message.
    pub quote_headline: Option<String>,
    pub headers: HeaderRawArgs,
    /// The body the draft starts with.
    pub body: String,
}

/// The reply signature style set, or the default one, below the quote.
pub open spec fn reply_signature_style(o: Option<ReplyTemplateSignatureStyle>) -> ReplyTemplateSignatureStyle {
    match o {
        Some(s) => s,
        None => ReplyTemplateSignatureStyle::BelowQuote,
    }
}

/// The reply posting style set, or the default one, top.
pub open spec fn reply_posting_style(o: Option<ReplyTemplatePostingStyle>) -> ReplyTemplatePostingStyle {
    match o {
        Some(s) => s,
        None => ReplyTemplatePostingStyle::Top,
    }
}

/// The reply headline: the one given on the command line, else the
/// account's (empty when unset).
pub open spec fn headline_of(a: Account, given: Option<String>) -> Seq<char> {
    match given {
        Some(h) => h@,
        None => text_or_empty(a.reply_quote_headline),
    }
}

/// `r` is what the draft of a reply is built from for the account `a`:
/// its address, display name (empty when unset), final signature and
/// reply styles, with the headline `headline`, the given headers, body
/// and reply-to-all switch; or, when `a` has no address, the missing
/// `From` error.
pub open spec fn replies(
    r: Result<BuildReplyTemplateArgs, MmlError>,
    a: Account,
    headline: Seq<char>,
    reply_all: bool,
    headers: Vec<(String, String)>,
    body: String,
) -> bool {
    match r {
        Ok(args) => {
            &&& a.from == Some(args.from)
            &&& args.from_name@ == text_or_empty(a.from_name)
            &&& args.signature@ == a.signature_text()
            &&& args.signature_style == reply_signature_style(a.reply_signature_style)
            &&& args.posting_style == reply_posting_style(a.reply_posting_style)
            &&& args.quote_headline@ == headline
            &&& args.reply_all == reply_all
            &&& args.headers == headers
            &&& args.body == body
        },
        Err(e) => a.from is None && e == MmlError::MissingFromError,
    }
}

/// What the draft of a reply is built from for the (merged) account `a`,
/// with the headline `given` when there is one (see [`headline_of`]);
/// fails when `a` has no `From` address.
pub fn reply_args(
    a: Account,
    given: Option<String>,
    reply_all: bool,
    headers: Vec<(String, String)>,
    body: String,
) -> (r: Result<BuildReplyTemplateArgs, MmlError>)
    ensures
        replies(r, a, headline_of(a, given), reply_all, headers, body),
{
    let signature = a.signature();
    let signature_style = match a.reply_signature_style {
        Some(s) => s,
        None => ReplyTemplateSignatureStyle::BelowQuote,
    };
    let posting_style = match a.reply_posting_style {
        Some(s) => s,
        None => ReplyTemplatePostingStyle::Top,
    };
    let quote_headline = match given {
        Some(h) => h,
        None => string_or_empty(a.reply_quote_headline),
    };
    match a.from {
        Some(from) => Ok(
            BuildReplyTemplateArgs {
                signature,
                signature_style,
                posting_style,
                quote_headline,
                from,
                from_name: string_or_empty(a.from_name),
                reply_all,
                headers,
                body,
            },
        ),
        None => Err(MmlError::MissingFromError),
    }
}

impl ReplyCommand {
    /// The command line as a layer of the merge: the values it gives,
    /// nothing else set.
    pub open spec fn as_layer(&self) -> Account {
        Account {
            from: self.from,
            from_name: self.from_name,
            signature: self.signature,
            reply_signature_style: self.signature_style,
            reply_posting_style: self.posting_style,
            ..Account::unset()
        }
    }

    /// The command line always wins and the account fills in the blanks:
    /// layering the command line is merging its layer on top of the
    /// account.
    pub proof fn lemma_layered_is_merge(&self, account: Account)
        ensures
            self.layered(account) == merged(account, self.as_layer()),
    {
    }

    /// The account with the command line on top: address, display name,
    /// signature and reply styles, each where it is given (the headline
    /// is [`ReplyCommand::headline`]).
    pub open spec fn layered(&self, account: Account) -> Account {
        Account {
            from: pick_text(account.from, self.from),
            from_name: pick_text(account.from_name, self.from_name),
            signature: pick(account.signature, self.signature),
            reply_signature_style: pick(account.reply_signature_style, self.signature_style),
            reply_posting_style: pick(account.reply_posting_style, self.posting_style),
            ..account
        }
    }

    /// The headline above the quote: the one given on the command line,
    /// its written-out `\n` sequences turned into line feeds; else the
    /// account's (empty when unset).
    pub open spec fn headline(&self, account: Account) -> Seq<char> {
        match self.quote_headline {
            Some(q) => unescaped_newlines(q@),
            None => text_or_empty(account.reply_quote_headline),
        }
    }

    /// What the draft is built from (see [`replies`]), the account layered
    /// with the command line and the headline of
    /// [`ReplyCommand::headline`]. The source message is read by the
    /// caller.
    pub fn args(self, account: Account) -> (r: Result<BuildReplyTemplateArgs, MmlError>)
        ensures
            replies(
                r,
                self.layered(account),
                self.headline(account),
                self.reply_all,
                self.headers.raw,
                self.body,
            ),
    {
        let given = unescaped_headline(self.quote_headline);
        let a = account.with_from(self.from).with_from_name(self.from_name).with_signature(
            self.signature,
        ).with_reply_signature_style(self.signature_style).with_reply_posting_style(
            self.posting_style,
        );
        reply_args(a, given, self.reply_all, self.headers.raw, self.body)
    }
}

} // verus!
