//! New template: [`build`] makes the draft of a message composed from
//! scratch.

use vstd::prelude::*;

use crate::error::MmlError;
use crate::template::compose::{build_new_draft, new_draft_content};
use crate::template::types::Template;
use crate::text::{count_nl, last_line_len};

verus! {

/// The arguments of [`build`].
#[derive(Clone, Debug, Default, PartialEq, Eq)]
pub struct BuildNewTemplateArgs {
    pub signature: String,
    pub signature_style: NewTemplateSignatureStyle,
    pub from: String,
    pub from_name: String,
    pub headers: Vec<(String, String)>,
    pub body: String,
}

/// Builds the draft of a new message: `From` (display name and
/// address), empty `To` and `Subject`, the custom headers `In-Reply-To`
/// and `Cc` when given (other custom headers are not shown), the body,
/// then the signature inlined after it or attached as `signature.txt`
/// (`text/plain`), as the style says. The cursor is at the end of the
/// body, one row per header given (shown or not) below the first line.
pub fn build(args: BuildNewTemplateArgs) -> (r: Result<Template, MmlError>)
    requires
        args.headers@.len() + args.body@.len() + 5 <= usize::MAX,
    ensures
        r matches Ok(t) && t.content@ == new_draft_content(
            args.from_name@,
            args.from@,
            args.headers.deep_view(),
            args.body@,
            args.signature@,
            args.signature_style == NewTemplateSignatureStyle::Inlined,
            args.signature_style == NewTemplateSignatureStyle::Attached,
            false,
            "text/plain"@,
            "signature.txt"@,
        ) && t.cursor.row == 3 + args.headers@.len() + 2 + count_nl(args.body@) && t.cursor.col
            == last_line_len(args.body@) && !t.cursor.locked,
{
    let t = build_new_draft(
        args.from_name.as_str(),
        args.from.as_str(),
        &args.headers,
        args.body.as_str(),
        args.signature.as_str(),
        args.signature_style.is_inlined(),
        args.signature_style.is_attached(),
        false,
        "text/plain",
        "signature.txt",
    );
    Ok(t)
}

/// How the signature of a new message is placed.
#[derive(Clone, Copy, Debug, Default, PartialEq, Eq)]
pub enum NewTemplateSignatureStyle {
    /// At the end of the body.
    #[default]
    Inlined,
    /// As an attachment.
    Attached,
    /// Left out.
    Hidden,
}

impl NewTemplateSignatureStyle {
    pub fn is_inlined(&self) -> (r: bool)
        ensures
            r == (*self == NewTemplateSignatureStyle::Inlined),
    {
        match self {
            NewTemplateSignatureStyle::Inlined => true,
            _ => false,
        }
    }

    pub fn is_attached(&self) -> (r: bool)
        ensures
            r == (*self == NewTemplateSignatureStyle::Attached),
    {
        match self {
            NewTemplateSignatureStyle::Attached => true,
            _ => false,
        }
    }

    pub fn is_hidden(&self) -> (r: bool)
        ensures
            r == (*self == NewTemplateSignatureStyle::Hidden),
    {
        match self {
            NewTemplateSignatureStyle::Hidden => true,
            _ => false,
        }
    }

    /// The name of the style, as written in the configuration.
    pub fn name(&self) -> (r: &'static str)
        ensures
            r@ == match self {
                NewTemplateSignatureStyle::Inlined => "inlined"@,
                NewTemplateSignatureStyle::Attached => "attached"@,
                NewTemplateSignatureStyle::Hidden => "hidden"@,
            },
    {
        match self {
            NewTemplateSignatureStyle::Inlined => "inlined",
            NewTemplateSignatureStyle::Attached => "attached",
            NewTemplateSignatureStyle::Hidden => "hidden",
        }
    }
}

} // verus!
