//! One part of an MML body compiled to what its MIME part is made of:
//! the content type, the `name` attribute, the body, the transfer
//! encoding and the disposition; then that MIME part built with
//! `mail_builder`.

use vstd::prelude::*;

use mail_builder::headers::content_type::ContentType;
use mail_builder::mime::{BodyPart, MimePart};

use crate::compiler::body::{
    disposition_of, multipart_content_type, multipart_type_of, part_disposition, property,
    transfer_encoding, transfer_encoding_of, unescaped_markup, Disposition, DispositionView,
    MmlBodyCompiler,
};
use crate::error::MmlError;
use crate::template::render::lookup;

verus! {

/// `mail_builder::mime::MimePart`, a MIME part being built.
#[verifier::external_type_specification]
#[verifier::external_body]
pub struct ExMimePart<'x>(MimePart<'x>);

/// `mail_builder::headers::content_type::ContentType`, a content type
/// with its attributes.
#[verifier::external_type_specification]
#[verifier::external_body]
pub struct ExContentType<'x>(ContentType<'x>);

/// A part of an MML body, as the MML grammar reads it.
pub enum MmlPart {
    /// `<#multipart …>`: its properties and its parts.
    Multi(Vec<(String, String)>, Vec<MmlPart>),
    /// `<#part …>`: its properties and its body.
    Single(Vec<(String, String)>, String),
    /// Text outside any part.
    PlainText(String),
}

/// The body of a compiled part: text, or the bytes of a file.
#[derive(Clone, Debug, PartialEq, Eq)]
pub enum PartBody {
    Text(String),
    Binary(Vec<u8>),
}

/// Mathematical value of a [`PartBody`].
pub enum PartBodyView {
    Text(Seq<char>),
    Binary(Seq<u8>),
}

impl View for PartBody {
    type V = PartBodyView;

    open spec fn view(&self) -> PartBodyView {
        match self {
            PartBody::Text(t) => PartBodyView::Text(t@),
            PartBody::Binary(b) => PartBodyView::Binary(b@),
        }
    }
}

/// What a part of an MML body compiles to. A multipart's own parts are
/// compiled one by one and added to it.
#[derive(Clone, Debug, PartialEq, Eq)]
pub enum CompiledPart {
    /// A multipart of this content type.
    Multipart { content_type: String },
    /// A part with its content type, its `name` attribute, its body, its
    /// transfer encoding (its own when unset) and its disposition.
    Leaf {
        content_type: String,
        name: Option<String>,
        body: PartBody,
        encoding: Option<String>,
        disposition: Disposition,
    },
}

/// Mathematical value of a [`CompiledPart`].
pub enum CompiledPartView {
    Multipart(Seq<char>),
    Leaf {
        content_type: Seq<char>,
        name: Option<Seq<char>>,
        body: PartBodyView,
        encoding: Option<Seq<char>>,
        disposition: DispositionView,
    },
}

impl View for CompiledPart {
    type V = CompiledPartView;

    open spec fn view(&self) -> CompiledPartView {
        match self {
            CompiledPart::Multipart { content_type } => CompiledPartView::Multipart(content_type@),
            CompiledPart::Leaf { content_type, name, body, encoding, disposition } => CompiledPartView::Leaf {
                content_type: content_type@,
                name: name.deep_view(),
                body: body@,
                encoding: encoding.deep_view(),
                disposition: disposition@,
            },
        }
    }
}

/// The file of a part as plain values: its contents, and its file name
/// when it has one that is valid UTF-8.
pub open spec fn file_view(file: Option<(Vec<u8>, Option<String>)>) -> Option<(Seq<u8>, Option<Seq<char>>)> {
    match file {
        Some((contents, name)) => Some((contents@, name.deep_view())),
        None => None,
    }
}

/// What `part` compiles to, `file` being the file its `filename`
/// property leads to (none when it could not be read) and `guessed` the
/// content type guessed from the part's contents:
/// - a multipart gets the content type of [`multipart_type_of`];
/// - text outside any part becomes `text/plain` text, unescaped (see
///   [`unescaped_markup`]);
/// - a part with a `filename` property carries the bytes of its file, and
///   fails with the property's value when there is no file; another part
///   carries its body as text.
///   Its content type is its `type` property, else the guessed one; its
///   `name` attribute is its `name` property; its transfer encoding is
///   that of [`transfer_encoding_of`] and its disposition that of
///   [`disposition_of`] (with the file's name).
pub open spec fn compiled_part(
    part: MmlPart,
    file: Option<(Seq<u8>, Option<Seq<char>>)>,
    guessed: Seq<char>,
) -> Result<CompiledPartView, Seq<char>> {
    match part {
        MmlPart::Multi(props, _) => Ok(
            CompiledPartView::Multipart(multipart_type_of(lookup(props.deep_view(), "type"@))),
        ),
        MmlPart::PlainText(body) => Ok(
            CompiledPartView::Leaf {
                content_type: "text/plain"@,
                name: None,
                body: PartBodyView::Text(unescaped_markup(body@)),
                encoding: None,
                disposition: DispositionView::Unset,
            },
        ),
        MmlPart::Single(props, body) => {
            let p = props.deep_view();
            let from_file = lookup(p, "filename"@) is Some;
            if from_file && file is None {
                Err(lookup(p, "filename"@)->0)
            } else {
                let (contents, file_name) = match file {
                    Some((c, n)) => if from_file {
                        (PartBodyView::Binary(c), n)
                    } else {
                        (PartBodyView::Text(body@), None)
                    },
                    None => (PartBodyView::Text(body@), None),
                };
                Ok(
                    CompiledPartView::Leaf {
                        content_type: match lookup(p, "type"@) {
                            Some(t) => t,
                            None => guessed,
                        },
                        name: lookup(p, "name"@),
                        body: contents,
                        encoding: transfer_encoding_of(lookup(p, "encoding"@)),
                        disposition: disposition_of(p, file_name),
                    },
                )
            }
        },
    }
}

/// `tree_magic_mini::from_u8`: the MIME type that the shared MIME
/// database of the machine gives to `bytes`. The answer rests on the
/// database files installed on the machine, so the contract states
/// nothing of it.
#[verifier::external_body]
fn guess_content_type(bytes: &[u8]) -> String {
    tree_magic_mini::from_u8(bytes).to_string()
}

/// Whether the content type of `part` is guessed: a part without a
/// `type` property.
pub open spec fn needs_guess(part: MmlPart) -> bool {
    part matches MmlPart::Single(props, _) && lookup(props.deep_view(), "type"@) is None
}

/// The bytes the content type of `part` is guessed from: the contents of
/// its file when it comes from one, else its body as UTF-8.
pub open spec fn guess_bytes(part: MmlPart, file: Option<(Seq<u8>, Option<Seq<char>>)>) -> Seq<u8> {
    match part {
        MmlPart::Single(props, body) => match file {
            Some((contents, _)) => if lookup(props.deep_view(), "filename"@) is Some {
                contents
            } else {
                vstd::utf8::encode_utf8(body@)
            },
            None => vstd::utf8::encode_utf8(body@),
        },
        _ => Seq::empty(),
    }
}

/// A copy of `b`.
fn bytes_of(b: &[u8]) -> (r: Vec<u8>)
    ensures
        r@ == b@,
{
    let mut r: Vec<u8> = Vec::new();
    let n = b.len();
    for i in 0..n
        invariant
            n == b@.len(),
            r@ == b@.take(i as int),
    {
        r.push(b[i]);
        assert(b@.take(i + 1) =~= b@.take(i as int).push(b@[i as int]));
    }
    assert(b@.take(n as int) =~= b@);
    r
}

/// The bytes the content type of `part` is guessed from (see
/// [`guess_bytes`]).
pub fn guess_input(part: &MmlPart, file: &Option<(Vec<u8>, Option<String>)>) -> (r: Vec<u8>)
    ensures
        r@ == guess_bytes(*part, file_view(*file)),
{
    match part {
        MmlPart::Single(props, body) => {
            let from_file = property(props, "filename").is_some();
            match file {
                Some((c, _)) => if from_file {
                    bytes_of(c.as_slice())
                } else {
                    bytes_of(body.as_str().as_bytes())
                },
                None => bytes_of(body.as_str().as_bytes()),
            }
        },
        _ => Vec::new(),
    }
}

/// `r` is what `part` compiles to with the file `file` and the guessed
/// content type `guessed` (see [`compiled_part`]); an error names the
/// file that could not be read.
pub open spec fn compiles_to(
    r: Result<CompiledPart, MmlError>,
    part: MmlPart,
    file: Option<(Seq<u8>, Option<Seq<char>>)>,
    guessed: Seq<char>,
) -> bool {
    match r {
        Ok(p) => compiled_part(part, file, guessed) == Ok::<CompiledPartView, Seq<char>>(p@),
        Err(e) => e matches MmlError::ReadAttachmentError(f) && compiled_part(part, file, guessed)
            == Err::<CompiledPartView, Seq<char>>(f@),
    }
}

/// Compiles one part of an MML body with `guessed` as the content type
/// of a part without a `type` property (see [`compiled_part`]).
pub fn compile_part_with(part: &MmlPart, file: Option<(Vec<u8>, Option<String>)>, guessed: String) -> (r:
    Result<CompiledPart, MmlError>)
    ensures
        compiles_to(r, *part, file_view(file), guessed@),
{
    let ghost fv = file_view(file);
    match part {
        MmlPart::Multi(props, _) => {
            let content_type = multipart_content_type(props).to_owned();
            Ok(CompiledPart::Multipart { content_type })
        },
        MmlPart::PlainText(body) => {
            Ok(
                CompiledPart::Leaf {
                    content_type: "text/plain".to_owned(),
                    name: None,
                    body: PartBody::Text(MmlBodyCompiler::unescape_mml_markup(body.as_str())),
                    encoding: None,
                    disposition: Disposition::Unset,
                },
            )
        },
        MmlPart::Single(props, body) => {
            let (contents, file_name) = match property(props, "filename") {
                Some(f) => match file {
                    Some((c, n)) => (PartBody::Binary(c), n),
                    None => return Err(MmlError::ReadAttachmentError(f)),
                },
                None => (PartBody::Text(body.clone()), None),
            };
            let content_type = match property(props, "type") {
                Some(t) => t,
                None => guessed,
            };
            let encoding = match transfer_encoding(props) {
                Some(e) => Some(e.to_owned()),
                None => None,
            };
            let name = property(props, "name");
            let disposition = part_disposition(props, file_name);
            Ok(CompiledPart::Leaf { content_type, name, body: contents, encoding, disposition })
        },
    }
}

/// Compiles one part of an MML body (see [`compiled_part`]): `file` is
/// the contents of the file its `filename` property leads to, with the
/// file's name, as the caller read them. A part without a `type`
/// property gets the content type that the MIME database of the machine
/// guesses from [`guess_bytes`]; the contract leaves that type open.
pub fn compile_part(part: &MmlPart, file: Option<(Vec<u8>, Option<String>)>) -> (r: Result<
    CompiledPart,
    MmlError,
>)
    ensures
        exists|g: Seq<char>| #[trigger] compiles_to(r, *part, file_view(file), g),
        !needs_guess(*part) ==> compiles_to(r, *part, file_view(file), Seq::<char>::empty()),
        r is Err ==> compiles_to(r, *part, file_view(file), Seq::<char>::empty()),
{
    let guessed = if let MmlPart::Single(props, _) = part {
        if property(props, "type").is_none() {
            let bytes = guess_input(part, &file);
            guess_content_type(bytes.as_slice())
        } else {
            String::new()
        }
    } else {
        String::new()
    };
    let ghost g = guessed@;
    let r = compile_part_with(part, file, guessed);
    assert(compiles_to(r, *part, file_view(file), g));
    r
}

// ---------------------------------------------------------------------------
// The MIME part, built with `mail_builder`
// ---------------------------------------------------------------------------

/// A `Content-Type` (or `Content-Disposition`) value as `mail_builder`
/// holds it: the type and its attributes, in order.
pub struct ContentTypeModel {
    pub c_type: Seq<char>,
    pub attributes: Seq<(Seq<char>, Seq<char>)>,
}

/// A header value of a MIME part as `mail_builder` holds it.
pub enum HeaderModel {
    ContentType(ContentTypeModel),
    Raw(Seq<char>),
}

/// The contents of a MIME part as `mail_builder` holds them.
pub enum MimeBodyModel {
    Text(Seq<char>),
    Binary(Seq<u8>),
    Multipart(Seq<MimeModel>),
}

/// A MIME part as `mail_builder` holds it: its headers, in order, and its
/// contents.
pub struct MimeModel {
    pub headers: Seq<(Seq<char>, HeaderModel)>,
    pub contents: MimeBodyModel,
}

/// A `mail_builder` content type, with what it holds.
pub struct ContentTypeNode {
    value: ContentType<'static>,
    model: Ghost<ContentTypeModel>,
}

/// A `mail_builder` MIME part, with what it holds.
pub struct MimeNode {
    part: MimePart<'static>,
    model: Ghost<MimeModel>,
}

impl ContentTypeNode {
    /// What the content type holds.
    pub closed spec fn model(&self) -> ContentTypeModel {
        self.model@
    }
}

impl MimeNode {
    /// What the MIME part holds.
    pub closed spec fn model(&self) -> MimeModel {
        self.model@
    }

    /// The `mail_builder` MIME part itself.
    pub fn into_part(self) -> MimePart<'static> {
        self.part
    }
}

/// `ct` as `mail_builder` keeps it for a text body: with the attribute
/// `charset=utf-8` when it has no attribute.
pub open spec fn text_content_type(ct: ContentTypeModel) -> ContentTypeModel {
    if ct.attributes.len() == 0 {
        ContentTypeModel { c_type: ct.c_type, attributes: seq![("charset"@, "utf-8"@)] }
    } else {
        ct
    }
}

/// The MIME part `m` with the header `name: value` added last.
pub open spec fn with_header(m: MimeModel, name: Seq<char>, value: HeaderModel) -> MimeModel {
    MimeModel { headers: m.headers.push((name, value)), contents: m.contents }
}

/// The MIME part `m` with the parts `children` added after its own, when
/// it is a multipart; unchanged otherwise.
pub open spec fn with_children(m: MimeModel, children: Seq<MimeModel>) -> MimeModel {
    match m.contents {
        MimeBodyModel::Multipart(cs) => MimeModel {
            headers: m.headers,
            contents: MimeBodyModel::Multipart(cs + children),
        },
        _ => m,
    }
}

/// `ContentType::new`: a content type without attributes.
#[verifier::external_body]
fn new_content_type(c_type: &str) -> (r: ContentTypeNode)
    ensures
        r.model() == (ContentTypeModel { c_type: c_type@, attributes: Seq::empty() }),
{
    ContentTypeNode { value: ContentType::new(c_type.to_string()), model: Ghost(vstd::pervasive::arbitrary()) }
}

/// `ContentType::attribute`: the content type with the attribute `key`
/// set to `value`, added after the others.
#[verifier::external_body]
fn with_attribute(ct: ContentTypeNode, key: &str, value: &str) -> (r: ContentTypeNode)
    ensures
        r.model() == (ContentTypeModel {
            c_type: ct.model().c_type,
            attributes: ct.model().attributes.push((key@, value@)),
        }),
{
    let value = ct.value.attribute(key.to_string(), value.to_string());
    ContentTypeNode { value, model: Ghost(vstd::pervasive::arbitrary()) }
}

/// `MimePart::new` with a text body: the `Content-Type` header, with the
/// UTF-8 charset when the content type has no attribute.
#[verifier::external_body]
fn text_mime_part(ct: ContentTypeNode, text: &str) -> (r: MimeNode)
    ensures
        r.model() == (MimeModel {
            headers: seq![("Content-Type"@, HeaderModel::ContentType(text_content_type(ct.model())))],
            contents: MimeBodyModel::Text(text@),
        }),
{
    MimeNode { part: MimePart::new(ct.value, text.to_string()), model: Ghost(vstd::pervasive::arbitrary()) }
}

/// `MimePart::new` with a binary body: the `Content-Type` header.
#[verifier::external_body]
fn binary_mime_part(ct: ContentTypeNode, bytes: &[u8]) -> (r: MimeNode)
    ensures
        r.model() == (MimeModel {
            headers: seq![("Content-Type"@, HeaderModel::ContentType(ct.model()))],
            contents: MimeBodyModel::Binary(bytes@),
        }),
{
    MimeNode { part: MimePart::new(ct.value, bytes.to_vec()), model: Ghost(vstd::pervasive::arbitrary()) }
}

/// `MimePart::new` with an empty list of parts: the `Content-Type`
/// header.
#[verifier::external_body]
fn multipart_mime_part(ct: ContentTypeNode) -> (r: MimeNode)
    ensures
        r.model() == (MimeModel {
            headers: seq![("Content-Type"@, HeaderModel::ContentType(ct.model()))],
            contents: MimeBodyModel::Multipart(Seq::empty()),
        }),
{
    let part = MimePart::new(ct.value, BodyPart::Multipart(Vec::new()));
    MimeNode { part, model: Ghost(vstd::pervasive::arbitrary()) }
}

/// `MimePart::transfer_encoding`: adds the `Content-Transfer-Encoding`
/// header.
#[verifier::external_body]
fn with_transfer_encoding(node: MimeNode, encoding: &str) -> (r: MimeNode)
    ensures
        r.model() == with_header(node.model(), "Content-Transfer-Encoding"@, HeaderModel::Raw(encoding@)),
{
    MimeNode { part: node.part.transfer_encoding(encoding.to_string()), model: Ghost(vstd::pervasive::arbitrary()) }
}

/// `MimePart::inline`: adds the `Content-Disposition: inline` header.
#[verifier::external_body]
fn inline_mime_part(node: MimeNode) -> (r: MimeNode)
    ensures
        r.model() == with_header(
            node.model(),
            "Content-Disposition"@,
            HeaderModel::ContentType(ContentTypeModel { c_type: "inline"@, attributes: Seq::empty() }),
        ),
{
    MimeNode { part: node.part.inline(), model: Ghost(vstd::pervasive::arbitrary()) }
}

/// `MimePart::attachment`: adds the `Content-Disposition: attachment`
/// header with the `filename` attribute.
#[verifier::external_body]
fn attachment_mime_part(node: MimeNode, filename: &str) -> (r: MimeNode)
    ensures
        r.model() == with_header(
            node.model(),
            "Content-Disposition"@,
            HeaderModel::ContentType(
                ContentTypeModel { c_type: "attachment"@, attributes: seq![("filename"@, filename@)] },
            ),
        ),
{
    MimeNode { part: node.part.attachment(filename.to_string()), model: Ghost(vstd::pervasive::arbitrary()) }
}

/// `MimePart::add_part`: adds `child` after the parts of a multipart; a
/// part that is no multipart is left as it is.
#[verifier::external_body]
fn add_mime_part(parent: &mut MimeNode, child: MimeNode)
    ensures
        final(parent).model() == with_children(old(parent).model(), seq![child.model()]),
{
    parent.part.add_part(child.part)
}

/// The content type of a compiled part, with its `name` attribute when it
/// has one.
pub open spec fn part_content_type(c_type: Seq<char>, name: Option<Seq<char>>) -> ContentTypeModel {
    ContentTypeModel {
        c_type,
        attributes: match name {
            Some(n) => seq![("name"@, n)],
            None => Seq::empty(),
        },
    }
}

/// The MIME part of a compiled part: a multipart of its type with no
/// parts yet; or a part with its content type (and `name`), its body,
/// then its transfer encoding and its disposition when they are set.
pub open spec fn mime_model(p: CompiledPartView) -> MimeModel {
    match p {
        CompiledPartView::Multipart(ct) => MimeModel {
            headers: seq![
                ("Content-Type"@, HeaderModel::ContentType(ContentTypeModel { c_type: ct, attributes: Seq::empty() })),
            ],
            contents: MimeBodyModel::Multipart(Seq::empty()),
        },
        CompiledPartView::Leaf { content_type, name, body, encoding, disposition } => {
            let ct = part_content_type(content_type, name);
            let base = match body {
                PartBodyView::Text(t) => MimeModel {
                    headers: seq![("Content-Type"@, HeaderModel::ContentType(text_content_type(ct)))],
                    contents: MimeBodyModel::Text(t),
                },
                PartBodyView::Binary(b) => MimeModel {
                    headers: seq![("Content-Type"@, HeaderModel::ContentType(ct))],
                    contents: MimeBodyModel::Binary(b),
                },
            };
            let encoded = match encoding {
                Some(e) => with_header(base, "Content-Transfer-Encoding"@, HeaderModel::Raw(e)),
                None => base,
            };
            match disposition {
                DispositionView::Inline => with_header(
                    encoded,
                    "Content-Disposition"@,
                    HeaderModel::ContentType(ContentTypeModel { c_type: "inline"@, attributes: Seq::empty() }),
                ),
                DispositionView::Attachment(f) => with_header(
                    encoded,
                    "Content-Disposition"@,
                    HeaderModel::ContentType(
                        ContentTypeModel { c_type: "attachment"@, attributes: seq![("filename"@, f)] },
                    ),
                ),
                DispositionView::Unset => encoded,
            }
        },
    }
}

/// The `mail_builder` MIME part of a compiled part (see [`mime_model`]).
pub fn mime_part(p: &CompiledPart) -> (r: MimeNode)
    ensures
        r.model() == mime_model(p@),
{
    match p {
        CompiledPart::Multipart { content_type } => multipart_mime_part(
            new_content_type(content_type.as_str()),
        ),
        CompiledPart::Leaf { content_type, name, body, encoding, disposition } => {
            let mut ct = new_content_type(content_type.as_str());
            if let Some(n) = name {
                ct = with_attribute(ct, "name", n.as_str());
            }
            assert(ct.model() == part_content_type(content_type@, name.deep_view()));
            let mut part = match body {
                PartBody::Text(t) => text_mime_part(ct, t.as_str()),
                PartBody::Binary(b) => binary_mime_part(ct, b.as_slice()),
            };
            if let Some(e) = encoding {
                part = with_transfer_encoding(part, e.as_str());
            }
            match disposition {
                Disposition::Inline => inline_mime_part(part),
                Disposition::Attachment(f) => attachment_mime_part(part, f.as_str()),
                Disposition::Unset => part,
            }
        },
    }
}

/// The models of MIME parts, in order.
pub open spec fn models(parts: Seq<MimeNode>) -> Seq<MimeModel> {
    parts.map_values(|n: MimeNode| n.model())
}

/// A multipart with `parts` added after its own, in order (see
/// [`with_children`]).
pub fn add_parts(multipart: MimeNode, parts: Vec<MimeNode>) -> (r: MimeNode)
    ensures
        r.model() == with_children(multipart.model(), models(parts@)),
{
    let ghost m0 = multipart.model();
    let ghost ps0 = parts@;
    let n = parts.len();
    let mut multipart = multipart;
    let mut parts = parts;
    assert(models(ps0.take(0)) =~= Seq::<MimeModel>::empty());
    assert(m0.contents is Multipart ==> m0.contents->Multipart_0 + Seq::<MimeModel>::empty() =~= m0.contents->Multipart_0);
    while parts.len() > 0
        invariant
            parts@.len() <= n,
            n == ps0.len(),
            parts@ == ps0.skip(n - parts@.len()),
            multipart.model() == with_children(m0, models(ps0.take(n - parts@.len()))),
        decreases parts@.len(),
    {
        let ghost k = n - parts@.len();
        let child = parts.remove(0);
        assert(child == ps0[k]);
        add_mime_part(&mut multipart, child);
        assert(ps0.skip(k).subrange(1, ps0.skip(k).len() as int) =~= ps0.skip(k + 1));
        assert(models(ps0.take(k + 1)) =~= models(ps0.take(k)).push(ps0[k].model()));
        proof {
            if m0.contents is Multipart {
                assert(m0.contents->Multipart_0 + models(ps0.take(k)) + seq![ps0[k].model()]
                    =~= m0.contents->Multipart_0 + models(ps0.take(k + 1)));
            }
        }
    }
    assert(ps0.take(n as int) =~= ps0);
    multipart
}

} // verus!
