//! MML → MIME body compilation: what each part of an MML body becomes.
//! Text outside the parts is unescaped; a multipart gets its content type
//! from its `type` property; a part gets its transfer encoding and its
//! disposition from its properties and from the file it names.

use vstd::prelude::*;

use crate::grammar::{
    escape_mark, MULTIPART_BEGIN, MULTIPART_BEGIN_ESCAPED, MULTIPART_END, MULTIPART_END_ESCAPED,
    PART_BEGIN, PART_BEGIN_ESCAPED, PART_END, PART_END_ESCAPED,
};
use crate::template::render::{find_header, lookup};
use crate::text::{chars_of, free_of, occurs_at, replace_all, replace_chars, string_of};

verus! {

/// MML → MIME message body compiler.
#[derive(Clone, Copy, Debug, Default, PartialEq, Eq)]
pub struct MmlBodyCompiler {}

/// `text` with the escaped markers turned into the markers they stand
/// for: parts opening and closing, then multiparts opening and closing.
pub open spec fn unescaped_markup(text: Seq<char>) -> Seq<char> {
    replace_all(
        replace_all(
            replace_all(
                replace_all(text, PART_BEGIN_ESCAPED@, PART_BEGIN@),
                PART_END_ESCAPED@,
                PART_END@,
            ),
            MULTIPART_BEGIN_ESCAPED@,
            MULTIPART_BEGIN@,
        ),
        MULTIPART_END_ESCAPED@,
        MULTIPART_END@,
    )
}

impl MmlBodyCompiler {
    /// A compiler with the default options.
    pub fn new() -> (r: Self)
        ensures
            r == (MmlBodyCompiler {}),
    {
        MmlBodyCompiler {  }
    }

    /// Replaces the escaped opening and closing markers by the markers
    /// themselves (see [`unescaped_markup`]).
    pub fn unescape_mml_markup(text: &str) -> (r: String)
        ensures
            r@ == unescaped_markup(text@),
    {
        proof {
            reveal_strlit("<#!part");
            reveal_strlit("<#!/part>");
            reveal_strlit("<#!multipart");
            reveal_strlit("<#!/multipart>");
        }
        let t = chars_of(text);
        let t = replace_chars(&t, &chars_of(PART_BEGIN_ESCAPED), &chars_of(PART_BEGIN));
        let t = replace_chars(&t, &chars_of(PART_END_ESCAPED), &chars_of(PART_END));
        let t = replace_chars(&t, &chars_of(MULTIPART_BEGIN_ESCAPED), &chars_of(MULTIPART_BEGIN));
        let t = replace_chars(&t, &chars_of(MULTIPART_END_ESCAPED), &chars_of(MULTIPART_END));
        string_of(&t)
    }
}

/// The value of the first property of a part called `key`.
pub fn property(props: &Vec<(String, String)>, key: &str) -> (r: Option<String>)
    ensures
        r.deep_view() == lookup(props.deep_view(), key@),
{
    let k = key.to_owned();
    match find_header(props, &k) {
        Some(i) => Some(props[i].1.clone()),
        None => None,
    }
}

/// Whether `v` is the text `lit`.
fn is_text(v: &String, lit: &str) -> (r: bool)
    ensures
        r == (v@ == lit@),
{
    *v == lit.to_owned()
}

/// The content type of a multipart whose `type` property is `t`:
/// `multipart/alternative` or `multipart/related` for those types,
/// `multipart/mixed` for `mixed`, for any other type and when unset.
pub open spec fn multipart_type_of(t: Option<Seq<char>>) -> Seq<char> {
    match t {
        Some(v) => if v == "alternative"@ {
            "multipart/alternative"@
        } else if v == "related"@ {
            "multipart/related"@
        } else {
            "multipart/mixed"@
        },
        None => "multipart/mixed"@,
    }
}

/// The content type of a multipart with these properties (see
/// [`multipart_type_of`]).
pub fn multipart_content_type(props: &Vec<(String, String)>) -> (r: &'static str)
    ensures
        r@ == multipart_type_of(lookup(props.deep_view(), "type"@)),
{
    match property(props, "type") {
        Some(t) => if is_text(&t, "alternative") {
            "multipart/alternative"
        } else if is_text(&t, "related") {
            "multipart/related"
        } else {
            "multipart/mixed"
        },
        None => "multipart/mixed",
    }
}

/// The transfer encoding of a part whose `encoding` property is `e`: that
/// encoding when it is `7bit`, `8bit`, `quoted-printable` or `base64`;
/// none (the part keeps its own) otherwise.
pub open spec fn transfer_encoding_of(e: Option<Seq<char>>) -> Option<Seq<char>> {
    match e {
        Some(v) => if v == "7bit"@ || v == "8bit"@ || v == "quoted-printable"@ || v == "base64"@ {
            Some(v)
        } else {
            None
        },
        None => None,
    }
}

/// The transfer encoding of a part with these properties (see
/// [`transfer_encoding_of`]).
pub fn transfer_encoding(props: &Vec<(String, String)>) -> (r: Option<&'static str>)
    ensures
        match (r, transfer_encoding_of(lookup(props.deep_view(), "encoding"@))) {
            (Some(s), Some(v)) => s@ == v,
            (None, None) => true,
            _ => false,
        },
{
    match property(props, "encoding") {
        Some(e) => if is_text(&e, "7bit") {
            Some("7bit")
        } else if is_text(&e, "8bit") {
            Some("8bit")
        } else if is_text(&e, "quoted-printable") {
            Some("quoted-printable")
        } else if is_text(&e, "base64") {
            Some("base64")
        } else {
            None
        },
        None => None,
    }
}

/// How a part is shown by the reader.
#[derive(Clone, Debug, PartialEq, Eq)]
pub enum Disposition {
    /// Inline, in the body.
    Inline,
    /// As an attachment under this file name.
    Attachment(String),
    /// As the part's type decides.
    Unset,
}

/// Mathematical value of a [`Disposition`].
pub enum DispositionView {
    Inline,
    Attachment(Seq<char>),
    Unset,
}

impl View for Disposition {
    type V = DispositionView;

    open spec fn view(&self) -> DispositionView {
        match self {
            Disposition::Inline => DispositionView::Inline,
            Disposition::Attachment(n) => DispositionView::Attachment(n@),
            Disposition::Unset => DispositionView::Unset,
        }
    }
}

/// The disposition of a part: inline when its `disposition` property
/// says `inline`; an attachment when it says `attachment`, or when it
/// says anything else or nothing and the part comes from a file; unset
/// otherwise. An attachment is named by the `recipient-filename`
/// property, else by the name of the part's file, else `noname`.
pub open spec fn disposition_of(props: Seq<(Seq<char>, Seq<char>)>, file_name: Option<Seq<char>>) -> DispositionView {
    let name = match lookup(props, "recipient-filename"@) {
        Some(n) => n,
        None => match file_name {
            Some(f) => f,
            None => "noname"@,
        },
    };
    let d = lookup(props, "disposition"@);
    if d == Some("inline"@) {
        DispositionView::Inline
    } else if d == Some("attachment"@) || lookup(props, "filename"@) is Some {
        DispositionView::Attachment(name)
    } else {
        DispositionView::Unset
    }
}

/// The disposition of a part with these properties (see
/// [`disposition_of`]); `file_name` is the name of the file that the
/// part's `filename` property leads to, when it has one that is valid
/// UTF-8.
pub fn part_disposition(props: &Vec<(String, String)>, file_name: Option<String>) -> (r: Disposition)
    ensures
        r@ == disposition_of(props.deep_view(), file_name.deep_view()),
{
    let from_file = property(props, "filename").is_some();
    let d = property(props, "disposition");
    let inline = match &d {
        Some(v) => is_text(v, "inline"),
        None => false,
    };
    let attachment = match &d {
        Some(v) => is_text(v, "attachment"),
        None => false,
    };
    if inline {
        Disposition::Inline
    } else if attachment || from_file {
        let name = match property(props, "recipient-filename") {
            Some(n) => n,
            None => match file_name {
                Some(f) => f,
                None => "noname".to_owned(),
            },
        };
        Disposition::Attachment(name)
    } else {
        Disposition::Unset
    }
}

/// Text with no occurrence of a pattern is left as it is by replacing
/// that pattern.
proof fn lemma_replace_absent(s: Seq<char>, pat: Seq<char>, rep: Seq<char>)
    requires
        pat.len() > 0,
        free_of(s, pat),
    ensures
        replace_all(s, pat, rep) == s,
    decreases s.len(),
{
    if s.len() > 0 {
        if pat.len() <= s.len() && s.take(pat.len() as int) == pat {
            assert(occurs_at(s, pat, 0)) by {
                assert(s.subrange(0, pat.len() as int) =~= s.take(pat.len() as int));
            }
        }
        assert forall|i: int| !#[trigger] occurs_at(s.skip(1), pat, i) by {
            if occurs_at(s.skip(1), pat, i) {
                assert(s.subrange(i + 1, i + 1 + pat.len()) =~= s.skip(1).subrange(i, i + pat.len()));
                assert(occurs_at(s, pat, i + 1));
            }
        }
        lemma_replace_absent(s.skip(1), pat, rep);
        assert(s =~= seq![s[0]] + s.skip(1));
    }
}

/// Text with no escape mark holds no escaped marker starting with it.
proof fn lemma_free_of_escaped(s: Seq<char>, marker: Seq<char>)
    requires
        free_of(s, escape_mark()),
        marker.len() >= 3,
        marker.take(3) == escape_mark(),
    ensures
        free_of(s, marker),
{
    assert forall|i: int| !#[trigger] occurs_at(s, marker, i) by {
        if occurs_at(s, marker, i) {
            assert(s.subrange(i, i + 3) =~= marker.take(3));
            assert(occurs_at(s, escape_mark(), i));
        }
    }
}

/// Unescaping leaves text that holds no escape mark (`<#!`) as it is.
pub proof fn lemma_unescape_plain_text(text: Seq<char>)
    requires
        free_of(text, escape_mark()),
    ensures
        unescaped_markup(text) == text,
{
    reveal_strlit("<#!part");
    reveal_strlit("<#!/part>");
    reveal_strlit("<#!multipart");
    reveal_strlit("<#!/multipart>");
    assert(PART_BEGIN_ESCAPED@.take(3) =~= escape_mark());
    assert(PART_END_ESCAPED@.take(3) =~= escape_mark());
    assert(MULTIPART_BEGIN_ESCAPED@.take(3) =~= escape_mark());
    assert(MULTIPART_END_ESCAPED@.take(3) =~= escape_mark());
    lemma_free_of_escaped(text, PART_BEGIN_ESCAPED@);
    lemma_free_of_escaped(text, PART_END_ESCAPED@);
    lemma_free_of_escaped(text, MULTIPART_BEGIN_ESCAPED@);
    lemma_free_of_escaped(text, MULTIPART_END_ESCAPED@);
    lemma_replace_absent(text, PART_BEGIN_ESCAPED@, PART_BEGIN@);
    lemma_replace_absent(text, PART_END_ESCAPED@, PART_END@);
    lemma_replace_absent(text, MULTIPART_BEGIN_ESCAPED@, MULTIPART_BEGIN@);
    lemma_replace_absent(text, MULTIPART_END_ESCAPED@, MULTIPART_END@);
}

} // verus!
