//! `read`: a MIME message shown as text, with the `[read]` settings of the
//! account and those given on the command line.

use vstd::prelude::*;

use crate::interpreter::InterpreterSettings;

verus! {

/// Show the MIME message read on standard input as text.
pub struct ReadCommand {
    /// Show only these headers.
    pub include_header: Option<Vec<String>>,
    /// Show all headers but these.
    pub exclude_header: Option<Vec<String>>,
    /// Show only the parts of these MIME types.
    pub include_part: Option<Vec<String>>,
    /// Show all parts but those of these MIME types.
    pub exclude_part: Option<Vec<String>>,
    /// Show the multipart structure.
    pub show_multiparts: bool,
    /// Save the attachments.
    pub save_attachments: bool,
    /// Where the attachments are saved.
    pub save_attachments_dir: Option<std::path::PathBuf>,
    /// Leave the attachment markers out.
    pub hide_attachments: bool,
    /// Leave the inline attachment markers out.
    pub hide_inline_attachments: bool,
    /// Leave the signature out of plain text parts.
    pub hide_plain_texts_signature: bool,
}

impl ReadCommand {
    /// The interpretation settings of the command line; the message is
    /// the one read on standard input.
    pub fn settings(self) -> (r: InterpreterSettings)
        ensures
            r == (InterpreterSettings {
                mime: None,
                include_header: self.include_header,
                exclude_header: self.exclude_header,
                include_part: self.include_part,
                exclude_part: self.exclude_part,
                show_multiparts: self.show_multiparts,
                save_attachments: self.save_attachments,
                save_attachments_dir: self.save_attachments_dir,
                hide_attachments: self.hide_attachments,
                hide_inline_attachments: self.hide_inline_attachments,
                hide_plain_texts_signature: self.hide_plain_texts_signature,
            }),
    {
        InterpreterSettings {
            mime: None,
            include_header: self.include_header,
            exclude_header: self.exclude_header,
            include_part: self.include_part,
            exclude_part: self.exclude_part,
            show_multiparts: self.show_multiparts,
            save_attachments: self.save_attachments,
            save_attachments_dir: self.save_attachments_dir,
            hide_attachments: self.hide_attachments,
            hide_inline_attachments: self.hide_inline_attachments,
            hide_plain_texts_signature: self.hide_plain_texts_signature,
        }
    }
}

} // verus!
