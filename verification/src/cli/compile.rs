//! `compile`: an MML message compiled to MIME.

use vstd::prelude::*;

use crate::cli::args::MessageArg;

verus! {

/// Compile an MML message to a MIME message.
pub struct CompileCommand {
    pub mml: MessageArg,
}

} // verus!
