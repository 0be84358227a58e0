//! Arguments of `mml interpret`.

pub mod args;
