//! Errors of the library.

use vstd::prelude::*;

verus! {

/// The errors of the library.
#[derive(Clone, Debug, PartialEq, Eq)]
pub enum MmlError {
    /// The source message is not a MIME message.
    ParseMimeMessageError,
    /// Neither the configuration nor the arguments give a `From` address.
    MissingFromError,
    /// The file that an MML part names (its `filename` property) could
    /// not be read.
    ReadAttachmentError(String),
}

} // verus!
