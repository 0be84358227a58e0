//! Compose template builder: see [`TemplateBuilderCompose`] for building
//! a draft for a brand-new message (no source).

pub mod cli;

use vstd::prelude::*;

use crate::error::MmlError;
use crate::template::address::{render_mailbox, write_mailbox};
use crate::template::render::{
    base_names, dedup, draft_header_names, extend_names, render, render_content, select_headers,
    shown_headers, Attachment, AttachmentView,
};
use crate::template::types::{part_sep, Template, TemplateBody, TemplateCursor};
use crate::text::{count_nl, join, last_line_len, string_of};

verus! {

/// How the signature of a new message is placed.
#[derive(Clone, Copy, Debug, Default, PartialEq, Eq)]
pub enum TemplateComposeSignatureStyle {
    /// At the end of the body.
    #[default]
    Inlined,
    /// As an attachment.
    Attached,
    /// Left out.
    Hidden,
}

impl TemplateComposeSignatureStyle {
    pub fn is_inlined(&self) -> (r: bool)
        ensures
            r == (*self == TemplateComposeSignatureStyle::Inlined),
    {
        match self {
            TemplateComposeSignatureStyle::Inlined => true,
            _ => false,
        }
    }

    pub fn is_attached(&self) -> (r: bool)
        ensures
            r == (*self == TemplateComposeSignatureStyle::Attached),
    {
        match self {
            TemplateComposeSignatureStyle::Attached => true,
            _ => false,
        }
    }

    pub fn is_hidden(&self) -> (r: bool)
        ensures
            r == (*self == TemplateComposeSignatureStyle::Hidden),
    {
        match self {
            TemplateComposeSignatureStyle::Hidden => true,
            _ => false,
        }
    }
}

/// The draft of a new message: `From` (the account's address with its
/// display name), empty `To` and `Subject`, the custom headers, the body
/// with the cursor at its end, and the signature as the style says.
#[derive(Clone, Debug, Default, PartialEq, Eq)]
pub struct TemplateBuilderCompose {
    pub signature: String,
    pub signature_style: TemplateComposeSignatureStyle,
    pub from: String,
    pub from_name: Option<String>,
    pub headers: Vec<(String, String)>,
    pub body: String,
}

/// The headers of a draft before selection: `From` (the display name
/// and the address), an empty `To`, `Subject`, then the custom headers.
pub open spec fn draft_pool(
    from_name: Seq<char>,
    from: Seq<char>,
    subject: Seq<char>,
    headers: Seq<(Seq<char>, Seq<char>)>,
) -> Seq<(Seq<char>, Seq<char>)> {
    seq![
        ("From"@, render_mailbox(Some(from_name), from)),
        ("To"@, Seq::<char>::empty()),
        ("Subject"@, subject),
    ] + headers
}

/// The headers of a draft before selection; see [`draft_pool`].
pub(crate) fn make_draft_pool(
    from_name: &str,
    from: &str,
    subject: String,
    headers: &Vec<(String, String)>,
) -> (r: Vec<(String, String)>)
    ensures
        r.deep_view() == draft_pool(from_name@, from@, subject@, headers.deep_view()),
{
    let mut from_value: Vec<char> = Vec::new();
    let name_opt = Some(from_name.to_owned());
    write_mailbox(&mut from_value, &name_opt, from);
    let mut pool: Vec<(String, String)> = vec![
        ("From".to_owned(), string_of(&from_value)),
        ("To".to_owned(), String::new()),
        ("Subject".to_owned(), subject),
    ];
    let n = headers.len();
    let ghost hv = headers.deep_view();
    let ghost pool0 = pool.deep_view();
    for i in 0..n
        invariant
            n == headers@.len(),
            hv == headers.deep_view(),
            pool.deep_view() == pool0 + hv.take(i as int),
    {
        let ghost before = pool.deep_view();
        pool.push((headers[i].0.clone(), headers[i].1.clone()));
        assert(pool.deep_view() =~= before.push(hv[i as int]));
        assert(pool0 + hv.take(i + 1) =~= (pool0 + hv.take(i as int)).push(hv[i as int]));
    }
    assert(hv.take(n as int) =~= hv);
    assert(pool.deep_view() =~= draft_pool(from_name@, from@, subject@, hv));
    pool
}

/// The parts of a new draft's body: the body, then the signature when it
/// is inlined and not empty.
pub open spec fn new_draft_parts(body: Seq<char>, signature: Seq<char>, inlined: bool) -> Seq<
    Seq<char>,
> {
    if inlined && signature.len() > 0 {
        seq![body, signature]
    } else {
        seq![body]
    }
}

/// The attachments of a new draft: the signature when it is attached and
/// not empty, with the given type and file name.
pub open spec fn signature_attachments(
    signature: Seq<char>,
    attached: bool,
    content_type: Seq<char>,
    filename: Seq<char>,
) -> Seq<AttachmentView> {
    if attached && signature.len() > 0 {
        seq![AttachmentView { content_type, filename, data: signature }]
    } else {
        seq![]
    }
}

/// The names of the headers a new draft shows: the usual ones, then,
/// when `show_custom`, the custom ones.
pub open spec fn new_draft_names(headers: Seq<(Seq<char>, Seq<char>)>, show_custom: bool) -> Seq<
    Seq<char>,
> {
    if show_custom {
        dedup(base_names() + headers.map_values(|h: (Seq<char>, Seq<char>)| h.0))
    } else {
        base_names()
    }
}

/// The MML content of a new draft.
pub open spec fn new_draft_content(
    from_name: Seq<char>,
    from: Seq<char>,
    headers: Seq<(Seq<char>, Seq<char>)>,
    body: Seq<char>,
    signature: Seq<char>,
    inlined: bool,
    attached: bool,
    show_custom: bool,
    att_type: Seq<char>,
    att_name: Seq<char>,
) -> Seq<char> {
    render_content(
        shown_headers(
            draft_pool(from_name, from, Seq::<char>::empty(), headers),
            new_draft_names(headers, show_custom),
        ),
        join(new_draft_parts(body, signature, inlined), part_sep()),
        signature_attachments(signature, attached, att_type, att_name),
    )
}

/// Builds a new draft; see [`new_draft_content`]. The cursor is at the
/// end of the body: one row per header line (`From`, `To`, `Subject`
/// and each custom header), an empty line, then the body.
pub(crate) fn build_new_draft(
    from_name: &str,
    from: &str,
    headers: &Vec<(String, String)>,
    body_text: &str,
    signature: &str,
    inlined: bool,
    attached: bool,
    show_custom: bool,
    att_type: &str,
    att_name: &str,
) -> (r: Template)
    requires
        headers@.len() + body_text@.len() + 5 <= usize::MAX,
    ensures
        r.content@ == new_draft_content(
            from_name@,
            from@,
            headers.deep_view(),
            body_text@,
            signature@,
            inlined,
            attached,
            show_custom,
            att_type@,
            att_name@,
        ),
        r.cursor.row == 3 + headers@.len() + 2 + count_nl(body_text@),
        r.cursor.col == last_line_len(body_text@),
        !r.cursor.locked,
{
    let n = headers.len();
    let pool = make_draft_pool(from_name, from, String::new(), headers);
    let mut names = draft_header_names();
    if show_custom {
        extend_names(&mut names, headers);
    }
    let shown = select_headers(&pool, &names);

    let mut body = TemplateBody::new(TemplateCursor::new(3 + n, 0));
    body.push_str(body_text);
    proof {
        assert(body.buffer() =~= body_text@);
    }
    body.flush();
    body.cursor.lock();
    let signature_nonempty = signature.unicode_len() > 0;
    if inlined && signature_nonempty {
        body.push_str(signature);
        body.flush();
    }
    let text = body.text_chars();
    assert(body.parts() =~= new_draft_parts(body_text@, signature@, inlined));
    let mut atts: Vec<Attachment> = Vec::new();
    if attached && signature_nonempty {
        atts.push(
            Attachment {
                content_type: att_type.to_owned(),
                filename: att_name.to_owned(),
                data: signature.to_owned(),
            },
        );
    }
    assert(atts@.map_values(|a: Attachment| a@) =~= signature_attachments(
        signature@,
        attached,
        att_type@,
        att_name@,
    ));
    let content = render(&shown, &text, &atts);
    Template::new_with_cursor(content, (body.cursor.row, body.cursor.col))
}

impl TemplateBuilderCompose {
    /// The display name of the `From` header (empty when unset).
    pub open spec fn from_name_view(&self) -> Seq<char> {
        match self.from_name {
            Some(n) => n@,
            None => Seq::<char>::empty(),
        }
    }

    /// `t` is the draft [`TemplateBuilderCompose::build`] makes: its
    /// content (see [`new_draft_content`]) and its unlocked cursor at the
    /// end of the body.
    pub open spec fn drafts(&self, t: Template) -> bool {
        &&& t.content@ == new_draft_content(
            self.from_name_view(),
            self.from@,
            self.headers.deep_view(),
            self.body@,
            self.signature@,
            self.signature_style == TemplateComposeSignatureStyle::Inlined,
            self.signature_style == TemplateComposeSignatureStyle::Attached,
            true,
            "application/octet-stream"@,
            "signature"@,
        )
        &&& t.cursor.row == 3 + self.headers@.len() + 2 + count_nl(self.body@)
        &&& t.cursor.col == last_line_len(self.body@)
        &&& !t.cursor.locked
    }

    /// Builds the draft: `From` (display name and address), empty `To`
    /// and `Subject`, the custom headers (shown after the usual ones),
    /// the body, then the signature inlined after it or attached as
    /// `signature` (`application/octet-stream`), as the style says. The
    /// cursor is at the end of the body.
    pub fn build(self) -> (r: Result<Template, MmlError>)
        requires
            self.headers@.len() + self.body@.len() + 5 <= usize::MAX,
        ensures
            r matches Ok(t) && self.drafts(t),
    {
        let empty = String::new();
        let name = match &self.from_name {
            Some(n) => n,
            None => &empty,
        };
        let t = build_new_draft(
            name.as_str(),
            self.from.as_str(),
            &self.headers,
            self.body.as_str(),
            self.signature.as_str(),
            self.signature_style.is_inlined(),
            self.signature_style.is_attached(),
            true,
            "application/octet-stream",
            "signature",
        );
        Ok(t)
    }
}

} // verus!
