//! The `compile` and `interpret` commands that take their message as a
//! single argument, or else on standard input.

pub mod args;
pub mod compiler;
pub mod interpreter;
