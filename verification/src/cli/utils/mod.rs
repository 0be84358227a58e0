//! Helpers of the editor-driven commands.

pub mod choice;
