//! `interpret`: a MIME message shown as text, with the `[read]` settings
//! of the account and those given on the command line.

use vstd::prelude::*;

use crate::cli::args::MessageArg;
use crate::interpreter::InterpreterSettings;

verus! {

/// Show a MIME message as text.
pub struct InterpretCommand {
    pub mime: MessageArg,
    /// Show only these headers.
    pub include_header: Option<Vec<String>>,
    /// Show all headers but these.
    pub exclude_header: Option<Vec<String>>,
    /// Show only the parts of these MIME types.
    pub include_part: Option<Vec<String>>,
    /// Show all parts but those of these MIME types.
    pub exclude_part: Option<Vec<String>>,
    /// Show the multipart structure.
    pub show_multiparts: bool,
    /// Save the attachments.
    pub save_attachments: bool,
    /// Where the attachments are saved.
    pub save_attachments_dir: Option<std::path::PathBuf>,
    /// Leave the attachment markers out.
    pub hide_attachments: bool,
    /// Leave the inline attachment markers out.
    pub hide_inline_attachments: bool,
    /// Leave the signature out of plain text parts.
    pub hide_plain_texts_signature: bool,
}

impl InterpretCommand {
    /// The interpretation settings of the command line, for the message
    /// `mime` that the caller read as the message argument says (empty
    /// when it could not be read).
    pub fn settings(self, mime: String) -> (r: InterpreterSettings)
        ensures
            r == (InterpreterSettings {
                mime: Some(mime),
                include_header: self.include_header,
                exclude_header: self.exclude_header,
                include_part: self.include_part,
                exclude_part: self.exclude_part,
                show_multiparts: self.show_multiparts,
                save_attachments: self.save_attachments,
                save_attachments_dir: self.save_attachments_dir,
                hide_attachments: self.hide_attachments,
                hide_inline_attachments: self.hide_inline_attachments,
                hide_plain_texts_signature: self.hide_plain_texts_signature,
            }),
    {
        InterpreterSettings {
            mime: Some(mime),
            include_header: self.include_header,
            exclude_header: self.exclude_header,
            include_part: self.include_part,
            exclude_part: self.exclude_part,
            show_multiparts: self.show_multiparts,
            save_attachments: self.save_attachments,
            save_attachments_dir: self.save_attachments_dir,
            hide_attachments: self.hide_attachments,
            hide_inline_attachments: self.hide_inline_attachments,
            hide_plain_texts_signature: self.hide_plain_texts_signature,
        }
    }
}

} // verus!
