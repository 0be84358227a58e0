pub mod cli;
pub mod compiler;
pub mod error;
pub mod grammar;
pub mod interpreter;
pub mod man;
pub mod mime;
pub mod mml;
pub mod pattern;
pub mod template;
pub mod text;
