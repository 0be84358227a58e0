//! Arguments of `mml compile` and `mml interpret`: a message given on
//! the command line, or read from standard input.

use vstd::prelude::*;

use crate::cli::stdin::{crlf_terminated, format_lines};

verus! {

/// Compile the given MML message to a valid MIME message.
pub struct CompileCommand {
    /// The message given on the command line (read from a file, or raw
    /// and CRLF-normalised).
    pub mml: Option<String>,
}

impl CompileCommand {
    /// The message given on the command line, or else the lines read from
    /// standard input, each ended with CRLF. The caller reads standard
    /// input only when no message was given.
    pub fn mml(self, stdin_lines: &Vec<String>) -> (r: String)
        ensures
            self.mml is Some ==> r@ == self.mml->0@,
            self.mml is None ==> r@ == crlf_terminated(stdin_lines.deep_view()),
    {
        match self.mml {
            Some(mml) => mml,
            None => format_lines(stdin_lines),
        }
    }
}

/// Interpret the given MIME message as a MML message.
pub struct InterpreterCommand {
    /// The message given on the command line (read from a file, or raw
    /// and CRLF-normalised).
    pub mime: Option<String>,
}

impl InterpreterCommand {
    /// The message given on the command line, or else the lines read from
    /// standard input, each ended with CRLF. The caller reads standard
    /// input only when no message was given.
    pub fn mime(self, stdin_lines: &Vec<String>) -> (r: String)
        ensures
            self.mime is Some ==> r@ == self.mime->0@,
            self.mime is None ==> r@ == crlf_terminated(stdin_lines.deep_view()),
    {
        match self.mime {
            Some(mime) => mime,
            None => format_lines(stdin_lines),
        }
    }
}

} // verus!
