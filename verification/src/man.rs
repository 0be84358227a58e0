//! `manuals`: where the man pages are written.

use vstd::prelude::*;

verus! {

/// Write the man pages of the command into a directory.
pub struct GenerateManCommand {
    pub dir: std::path::PathBuf,
}

} // verus!
