//! `template`: drafts printed as they are, without going through the
//! editor.

pub mod compose;
pub mod forward;
