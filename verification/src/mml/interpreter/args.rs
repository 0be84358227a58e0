//! Arguments of `mml interpret`: the message, and the options of the
//! interpretation.

use vstd::prelude::*;

use crate::cli::stdin::{crlf_terminated, format_lines};
use crate::interpreter::{
    headers_filter, parts_filter, select_headers_filter, select_parts_filter, FilterHeaders,
    FilterParts,
};

verus! {

/// Interpret the given MIME message as a MML message.
pub struct InterpretCommand {
    /// The message given on the command line (read from a file, or raw
    /// and CRLF-normalised).
    pub mime: Option<String>,
    /// Headers to show.
    pub include_header: Option<Vec<String>>,
    /// Headers to hide.
    pub exclude_header: Option<Vec<String>>,
    /// MIME types of the parts to show.
    pub include_part: Option<Vec<String>>,
    /// MIME types of the parts to hide.
    pub exclude_part: Option<Vec<String>>,
    /// Show the multipart structure.
    pub show_multiparts: bool,
    /// Save the attachments to `save_attachments_dir`.
    pub save_attachments: bool,
    /// Where attachments point to (and are saved).
    pub save_attachments_dir: Option<std::path::PathBuf>,
    /// Hide all attachments.
    pub hide_attachments: bool,
    /// Hide the inline attachments.
    pub hide_inline_attachments: bool,
    /// Cut the signature off plain-text bodies.
    pub hide_plain_texts_signature: bool,
}

/// A copy of a path (`PathBuf::clone`).
#[verifier::external_body]
pub(crate) fn clone_path(p: &std::path::PathBuf) -> (r: std::path::PathBuf)
    ensures
        r == *p,
{
    p.clone()
}

impl InterpretCommand {
    /// The message given on the command line, or else the lines read from
    /// standard input, each ended with CRLF. The caller reads standard
    /// input only when no message was given.
    pub fn mime(self, stdin_lines: &Vec<String>) -> (r: String)
        ensures
            self.mime is Some ==> r@ == self.mime->0@,
            self.mime is None ==> r@ == crlf_terminated(stdin_lines.deep_view()),
    {
        match self.mime {
            Some(mime) => mime,
            None => format_lines(stdin_lines),
        }
    }

    /// The headers to show: all but the excluded ones when some are
    /// excluded, else only the included ones when some are included, else
    /// all.
    pub fn filter_headers(&self) -> (r: FilterHeaders)
        ensures
            r@ == headers_filter(self.exclude_header.deep_view(), self.include_header.deep_view()),
    {
        select_headers_filter(&self.exclude_header, &self.include_header)
    }

    /// The parts to show: all but the excluded types when some are
    /// excluded, else only the included type(s) when some are included,
    /// else all.
    pub fn filter_parts(&self) -> (r: FilterParts)
        ensures
            r@ == parts_filter(self.exclude_part.deep_view(), self.include_part.deep_view()),
    {
        select_parts_filter(&self.exclude_part, &self.include_part)
    }

    /// Whether the multipart structure is shown.
    pub fn show_multiparts(&self) -> (r: bool)
        ensures
            r == self.show_multiparts,
    {
        self.show_multiparts
    }

    /// Whether the attachments are saved.
    pub fn save_attachments(&self) -> (r: bool)
        ensures
            r == self.save_attachments,
    {
        self.save_attachments
    }

    /// Where the attachments are saved, if given.
    pub fn save_attachments_dir(&self) -> (r: Option<std::path::PathBuf>)
        ensures
            r == self.save_attachments_dir,
    {
        match &self.save_attachments_dir {
            Some(p) => Some(clone_path(p)),
            None => None,
        }
    }

    /// Whether the attachments are shown.
    pub fn show_attachments(&self) -> (r: bool)
        ensures
            r == !self.hide_attachments,
    {
        !self.hide_attachments
    }

    /// Whether the inline attachments are shown.
    pub fn show_inline_attachments(&self) -> (r: bool)
        ensures
            r == !self.hide_inline_attachments,
    {
        !self.hide_inline_attachments
    }

    /// Whether the signature of plain text parts is shown.
    pub fn show_plain_texts_signature(&self) -> (r: bool)
        ensures
            r == !self.hide_plain_texts_signature,
    {
        !self.hide_plain_texts_signature
    }
}

} // verus!
