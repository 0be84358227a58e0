//! `compile`, as the compiler gives it: an MML message compiled to MIME.

use vstd::prelude::*;

verus! {

/// Compile an MML message to a MIME message.
pub struct CompileCommand {
    /// The MML message, read from the file the argument names or given
    /// inline; standard input when unset.
    pub mml: Option<String>,
}

} // verus!
