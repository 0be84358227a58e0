//! What the `mml` command works with: its configuration, the merged
//! account, and the values its arguments carry.

pub mod account;
pub mod args;
pub mod choice;
pub mod compile;
pub mod compose;
pub mod config;
pub mod editor;
pub mod forward;
pub mod interpret;
pub mod read;
pub mod reply;
pub mod stdin;
pub mod template;
pub mod utils;
