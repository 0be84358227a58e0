//! MML → MIME compilation: the decisions made for each part of an MML
//! body, and the `compile` command.

pub mod body;
pub mod cli;
pub mod part;
pub mod tree;
