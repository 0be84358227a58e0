//! Forward template: [`build`] makes the draft that forwards a message.

use vstd::prelude::*;

use crate::error::MmlError;
use crate::pattern::{regex_capture, regex_group, subject_rest};
use crate::template::compose::{draft_pool, make_draft_pool, signature_attachments};
use crate::template::message::SourceMessage;
use crate::template::render::{
    base_names, draft_header_names, render, render_content, select_headers, shown_headers,
    Attachment, AttachmentView,
};
use crate::template::thread::{forward_thread, forward_thread_text};
use crate::template::types::{part_sep, Template, TemplateBody, TemplateCursor};
use crate::text::{chars_of, count_nl, extend_str, join, last_line_len, lossy_text, string_of, utf8_lossy};

verus! {

/// Pattern whose second group is a subject without its `Fwd:` prefixes
/// (in any case, with any spacing).
pub const FWD_SUBJECT: &'static str = "(?i:\\s*fwd\\s*:\\s*)*(.*)";

/// The capture of `group` 1 of `pattern` in `subject`, or `subject`
/// itself when there is none.
pub open spec fn captured_or_whole(pattern: Seq<char>, subject: Seq<char>) -> Seq<char> {
    match regex_group(pattern, subject, 1) {
        Some(g) => g,
        None => subject,
    }
}

/// The subject without its `Fwd:` prefixes.
pub fn trim_prefix(subject: &str) -> (r: String)
    ensures
        r@ == captured_or_whole(FWD_SUBJECT@, subject@),
        r@ == subject_rest(subject@, seq!['f', 'w', 'd']),
{
    match regex_capture(FWD_SUBJECT, subject, 1) {
        Some(g) => g,
        None => subject.to_owned(),
    }
}

/// The arguments of [`build`].
#[derive(Clone, Debug, Default, PartialEq, Eq)]
pub struct BuildForwardTemplateArgs {
    pub signature: String,
    pub signature_style: ForwardTemplateSignatureStyle,
    pub posting_style: ForwardTemplatePostingStyle,
    pub quote_headline: String,
    pub from: String,
    pub from_name: String,
    pub headers: Vec<(String, String)>,
    pub body: String,
}

/// The subject of a forward of `msg`.
pub open spec fn forward_subject(msg: &SourceMessage) -> Seq<char> {
    let subject = match msg.subject {
        Some(s) => s@,
        None => Seq::<char>::empty(),
    };
    "Fwd: "@ + captured_or_whole(FWD_SUBJECT@, subject)
}

/// The parts of a forward's body: the body, the signature when inlined
/// and not empty, then, top posting, the headline followed by the
/// forwarded message.
pub open spec fn forward_parts(msg: &SourceMessage, args: BuildForwardTemplateArgs) -> Seq<
    Seq<char>,
> {
    let sig: Seq<Seq<char>> = if args.signature_style == ForwardTemplateSignatureStyle::Inlined
        && args.signature@.len() > 0 {
        seq![args.signature@]
    } else {
        seq![]
    };
    let thread: Seq<Seq<char>> = if args.posting_style == ForwardTemplatePostingStyle::Top {
        seq![args.quote_headline@ + forward_thread_text(msg)]
    } else {
        seq![]
    };
    seq![args.body@] + sig + thread
}

/// The file name of the forwarded message as an attachment: its message
/// id (or `message`) with the `.eml` extension.
pub open spec fn forward_filename(msg: &SourceMessage) -> Seq<char> {
    match msg.message_id {
        Some(id) => id@ + ".eml"@,
        None => "message"@ + ".eml"@,
    }
}

/// The attachments of a forward: the signature when attached and not
/// empty, then, posting as attachment, the forwarded message.
pub open spec fn forward_attachments(msg: &SourceMessage, args: BuildForwardTemplateArgs) -> Seq<
    AttachmentView,
> {
    signature_attachments(
        args.signature@,
        args.signature_style == ForwardTemplateSignatureStyle::Attached,
        "text/plain"@,
        "signature.txt"@,
    ) + if args.posting_style == ForwardTemplatePostingStyle::Attached {
        seq![
            AttachmentView {
                content_type: "message/rfc822"@,
                filename: forward_filename(msg),
                data: lossy_text(msg.raw_message@),
            },
        ]
    } else {
        seq![]
    }
}

/// The MML content of a forward.
pub open spec fn forward_content(msg: &SourceMessage, args: BuildForwardTemplateArgs) -> Seq<char> {
    render_content(
        shown_headers(
            draft_pool(args.from_name@, args.from@, forward_subject(msg), args.headers.deep_view()),
            base_names(),
        ),
        join(forward_parts(msg, args), part_sep()),
        forward_attachments(msg, args),
    )
}

/// `t` is the draft [`build`] makes: its content (see
/// [`forward_content`]) and its unlocked cursor at the end of the body.
pub open spec fn forward_draft(msg: &SourceMessage, args: BuildForwardTemplateArgs, t: Template) -> bool {
    &&& t.content@ == forward_content(msg, args)
    &&& t.cursor.row == 3 + args.headers@.len() + 2 + count_nl(args.body@)
    &&& t.cursor.col == last_line_len(args.body@)
    &&& !t.cursor.locked
}

/// Builds the draft that forwards `msg`: `From` (display name and
/// address), an empty `To`, `Subject` (`Fwd: ` and the source subject
/// without its `Fwd:` prefixes), `In-Reply-To` and `Cc` when given as
/// custom headers, then the body, the signature (inlined after the body,
/// or attached as `signature.txt`), and the forwarded message (after the
/// headline, top posting; as a `message/rfc822` attachment otherwise).
/// The cursor is at the end of the body, one row per header given below
/// the third line.
pub fn build(msg: &SourceMessage, args: BuildForwardTemplateArgs) -> (r: Result<Template, MmlError>)
    requires
        args.headers@.len() + args.body@.len() + 5 <= usize::MAX,
    ensures
        r matches Ok(t) && forward_draft(msg, args, t),
{
    proof {
        reveal_strlit("");
    }
    let subject = match &msg.subject {
        Some(s) => {
            let t = trim_prefix(s.as_str());
            assert(t@ == captured_or_whole(FWD_SUBJECT@, s@));
            t
        },
        None => {
            let t = trim_prefix("");
            assert(""@ == Seq::<char>::empty());
            t
        },
    };
    let ghost source_subject = match &msg.subject {
        Some(s) => s@,
        None => Seq::<char>::empty(),
    };
    assert(subject@ == captured_or_whole(FWD_SUBJECT@, source_subject));
    let mut subject_chars = chars_of("Fwd: ");
    extend_str(&mut subject_chars, subject.as_str());
    let subject = string_of(&subject_chars);
    assert(subject@ == forward_subject(msg));
    let n = args.headers.len();
    let pool = make_draft_pool(args.from_name.as_str(), args.from.as_str(), subject, &args.headers);
    let names = draft_header_names();
    let shown = select_headers(&pool, &names);

    let mut body = TemplateBody::new(TemplateCursor::new(3 + n, 0));
    body.push_str(args.body.as_str());
    assert(body.buffer() =~= args.body@);
    body.flush();
    body.cursor.lock();
    let signature_nonempty = args.signature.as_str().unicode_len() > 0;
    if args.signature_style.is_inlined() && signature_nonempty {
        body.push_str(args.signature.as_str());
        body.flush();
    }
    if args.posting_style.is_top() {
        body.push_str(args.quote_headline.as_str());
        let thread = forward_thread(msg);
        body.push_chars(&thread);
        body.flush();
    }
    assert(body.parts() =~= forward_parts(msg, args));
    let text = body.text_chars();

    let mut atts: Vec<Attachment> = Vec::new();
    if args.signature_style.is_attached() && signature_nonempty {
        atts.push(
            Attachment {
                content_type: "text/plain".to_owned(),
                filename: "signature.txt".to_owned(),
                data: args.signature.clone(),
            },
        );
    }
    if args.posting_style.is_attached() {
        let mut filename = match &msg.message_id {
            Some(id) => chars_of(id.as_str()),
            None => chars_of("message"),
        };
        extend_str(&mut filename, ".eml");
        atts.push(
            Attachment {
                content_type: "message/rfc822".to_owned(),
                filename: string_of(&filename),
                data: utf8_lossy(&msg.raw_message),
            },
        );
    }
    assert(atts@.map_values(|a: Attachment| a@) =~= forward_attachments(msg, args));
    let content = render(&shown, &text, &atts);
    Ok(Template::new_with_cursor(content, (body.cursor.row, body.cursor.col)))
}

/// Where the forwarded message goes.
#[derive(Clone, Copy, Debug, Default, PartialEq, Eq)]
pub enum ForwardTemplatePostingStyle {
    /// In the body, below the headline.
    #[default]
    Top,
    /// As a `message/rfc822` attachment.
    Attached,
}

impl ForwardTemplatePostingStyle {
    pub fn is_top(&self) -> (r: bool)
        ensures
            r == (*self == ForwardTemplatePostingStyle::Top),
    {
        match self {
            ForwardTemplatePostingStyle::Top => true,
            _ => false,
        }
    }

    pub fn is_attached(&self) -> (r: bool)
        ensures
            r == (*self == ForwardTemplatePostingStyle::Attached),
    {
        match self {
            ForwardTemplatePostingStyle::Attached => true,
            _ => false,
        }
    }

    /// The name of the style, as written in the configuration.
    pub fn name(&self) -> (r: &'static str)
        ensures
            r@ == match self {
                ForwardTemplatePostingStyle::Top => "top"@,
                ForwardTemplatePostingStyle::Attached => "attached"@,
            },
    {
        match self {
            ForwardTemplatePostingStyle::Top => "top",
            ForwardTemplatePostingStyle::Attached => "attached",
        }
    }
}

/// How the signature of a forward is placed.
#[derive(Clone, Copy, Debug, Default, PartialEq, Eq)]
pub enum ForwardTemplateSignatureStyle {
    /// After the body.
    #[default]
    Inlined,
    /// As an attachment.
    Attached,
    /// Left out.
    Hidden,
}

impl ForwardTemplateSignatureStyle {
    pub fn is_inlined(&self) -> (r: bool)
        ensures
            r == (*self == ForwardTemplateSignatureStyle::Inlined),
    {
        match self {
            ForwardTemplateSignatureStyle::Inlined => true,
            _ => false,
        }
    }

    pub fn is_attached(&self) -> (r: bool)
        ensures
            r == (*self == ForwardTemplateSignatureStyle::Attached),
    {
        match self {
            ForwardTemplateSignatureStyle::Attached => true,
            _ => false,
        }
    }

    pub fn is_hidden(&self) -> (r: bool)
        ensures
            r == (*self == ForwardTemplateSignatureStyle::Hidden),
    {
        match self {
            ForwardTemplateSignatureStyle::Hidden => true,
            _ => false,
        }
    }

    /// The name of the style, as written in the configuration.
    pub fn name(&self) -> (r: &'static str)
        ensures
            r@ == match self {
                ForwardTemplateSignatureStyle::Inlined => "inlined"@,
                ForwardTemplateSignatureStyle::Attached => "attached"@,
                ForwardTemplateSignatureStyle::Hidden => "hidden"@,
            },
    {
        match self {
            ForwardTemplateSignatureStyle::Inlined => "inlined",
            ForwardTemplateSignatureStyle::Attached => "attached",
            ForwardTemplateSignatureStyle::Hidden => "hidden",
        }
    }
}

} // verus!
