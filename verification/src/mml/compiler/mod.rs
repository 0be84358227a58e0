//! Arguments of `mml compile`.

pub mod args;
