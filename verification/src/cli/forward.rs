//! `forward`: the draft that forwards a message, made from the merged
//! account and the command line, before it goes to the editor.

use vstd::prelude::*;

use crate::cli::account::{merged, pick, pick_text, Account};
use crate::cli::args::{HeaderRawArgs, MessageArg};
use crate::cli::stdin::{unescape_newlines, unescaped_newlines};
use crate::error::MmlError;
use crate::template::forward::{
    BuildForwardTemplateArgs, ForwardTemplatePostingStyle, ForwardTemplateSignatureStyle,
};

verus! {

/// Forward a message, editing the draft in the editor.
pub struct ForwardCommand {
    pub mime: MessageArg,
    /// Address of the `From` header; overrides the account's.
    pub from: Option<String>,
    /// Display name of the `From` header.
    pub from_name: Option<String>,
    /// The signature, read from its file when the argument names one.
    pub signature: Option<String>,
    /// How the signature is added.
    pub signature_style: Option<ForwardTemplateSignatureStyle>,
    /// Where the forwarded message goes.
    pub posting_style: Option<ForwardTemplatePostingStyle>,
    /// The line above the forwarded message.
    pub quote_headline: Option<String>,
    pub headers: HeaderRawArgs,
    /// The body the draft starts with.
    pub body: String,
}

/// The value set, or the empty text.
pub open spec fn text_or_empty(o: Option<String>) -> Seq<char> {
    match o {
        Some(s) => s@,
        None => Seq::<char>::empty(),
    }
}

/// The forward signature style set, or the default one, inlined.
pub open spec fn forward_signature_style(o: Option<ForwardTemplateSignatureStyle>) -> ForwardTemplateSignatureStyle {
    match o {
        Some(s) => s,
        None => ForwardTemplateSignatureStyle::Inlined,
    }
}

/// The forward posting style set, or the default one, top.
pub open spec fn forward_posting_style(o: Option<ForwardTemplatePostingStyle>) -> ForwardTemplatePostingStyle {
    match o {
        Some(s) => s,
        None => ForwardTemplatePostingStyle::Top,
    }
}

/// The forward headline: the one given, else the account's (empty when
/// unset).
pub open spec fn forward_headline_of(a: Account, given: Option<String>) -> Seq<char> {
    match given {
        Some(h) => h@,
        None => text_or_empty(a.forward_quote_headline),
    }
}

/// The headline a command line gives: its written-out `\n` sequences
/// turned into line feeds; else the account's forward headline (empty
/// when unset).
pub open spec fn command_forward_headline(account: Account, given: Option<String>) -> Seq<char> {
    match given {
        Some(q) => unescaped_newlines(q@),
        None => text_or_empty(account.forward_quote_headline),
    }
}

/// The headline given on a command line, its written-out `\n` sequences
/// turned into line feeds.
pub fn unescaped_headline(given: Option<String>) -> (r: Option<String>)
    ensures
        match given {
            Some(q) => r matches Some(h) && h@ == unescaped_newlines(q@),
            None => r is None,
        },
{
    match given {
        Some(q) => Some(unescape_newlines(q.as_str())),
        None => None,
    }
}

/// `r` is what the draft of a forward is built from for the account `a`:
/// its address, display name (empty when unset), final signature and
/// forward styles, with the headline `headline`, the given headers and
/// body; or, when `a` has no address, the missing `From` error.
pub open spec fn forwards(
    r: Result<BuildForwardTemplateArgs, MmlError>,
    a: Account,
    headline: Seq<char>,
    headers: Vec<(String, String)>,
    body: String,
) -> bool {
    match r {
        Ok(args) => {
            &&& a.from == Some(args.from)
            &&& args.from_name@ == text_or_empty(a.from_name)
            &&& args.signature@ == a.signature_text()
            &&& args.signature_style == forward_signature_style(a.forward_signature_style)
            &&& args.posting_style == forward_posting_style(a.forward_posting_style)
            &&& args.quote_headline@ == headline
            &&& args.headers == headers
            &&& args.body == body
        },
        Err(e) => a.from is None && e == MmlError::MissingFromError,
    }
}

/// The value set, or the empty string.
pub fn string_or_empty(o: Option<String>) -> (r: String)
    ensures
        r@ == text_or_empty(o),
{
    match o {
        Some(s) => s,
        None => String::new(),
    }
}

/// What the draft of a forward is built from for the (merged) account
/// `a`, with the headline `given` when there is one (see
/// [`forward_headline_of`]); fails when `a` has no `From` address.
pub fn forward_args(
    a: Account,
    given: Option<String>,
    headers: Vec<(String, String)>,
    body: String,
) -> (r: Result<BuildForwardTemplateArgs, MmlError>)
    ensures
        forwards(r, a, forward_headline_of(a, given), headers, body),
{
    let signature = a.signature();
    let signature_style = match a.forward_signature_style {
        Some(s) => s,
        None => ForwardTemplateSignatureStyle::Inlined,
    };
    let posting_style = match a.forward_posting_style {
        Some(s) => s,
        None => ForwardTemplatePostingStyle::Top,
    };
    let quote_headline = match given {
        Some(h) => h,
        None => string_or_empty(a.forward_quote_headline),
    };
    match a.from {
        Some(from) => Ok(
            BuildForwardTemplateArgs {
                signature,
                signature_style,
                posting_style,
                quote_headline,
                from,
                from_name: string_or_empty(a.from_name),
                headers,
                body,
            },
        ),
        None => Err(MmlError::MissingFromError),
    }
}

impl ForwardCommand {
    /// The command line as a layer of the merge: the values it gives,
    /// nothing else set.
    pub open spec fn as_layer(&self) -> Account {
        Account {
            from: self.from,
            from_name: self.from_name,
            signature: self.signature,
            forward_signature_style: self.signature_style,
            forward_posting_style: self.posting_style,
            ..Account::unset()
        }
    }

    /// The command line always wins and the account fills in the blanks:
    /// layering the command line is merging its layer on top of the
    /// account.
    pub proof fn lemma_layered_is_merge(&self, account: Account)
        ensures
            self.layered(account) == merged(account, self.as_layer()),
    {
    }

    /// The account with the command line on top: address, display name,
    /// signature and forward styles, each where it is given (the headline
    /// is [`command_forward_headline`]).
    pub open spec fn layered(&self, account: Account) -> Account {
        Account {
            from: pick_text(account.from, self.from),
            from_name: pick_text(account.from_name, self.from_name),
            signature: pick(account.signature, self.signature),
            forward_signature_style: pick(account.forward_signature_style, self.signature_style),
            forward_posting_style: pick(account.forward_posting_style, self.posting_style),
            ..account
        }
    }

    /// What the draft is built from (see [`forwards`]), the account
    /// layered with the command line and the headline of
    /// [`command_forward_headline`]. The source message is read by the
    /// caller.
    pub fn args(self, account: Account) -> (r: Result<BuildForwardTemplateArgs, MmlError>)
        ensures
            forwards(
                r,
                self.layered(account),
                command_forward_headline(account, self.quote_headline),
                self.headers.raw,
                self.body,
            ),
    {
        let given = unescaped_headline(self.quote_headline);
        let a = account.with_from(self.from).with_from_name(self.from_name).with_signature(
            self.signature,
        ).with_forward_signature_style(self.signature_style).with_forward_posting_style(
            self.posting_style,
        );
        forward_args(a, given, self.headers.raw, self.body)
    }
}

} // verus!
