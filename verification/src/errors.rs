//! The one error type every failing step reports: a kind, for the exit
//! decision, and a human-readable context message.

use vstd::prelude::*;
use vstd::string::StringExecFns;

verus! {

/// What went wrong: an external command could not be started, it exited
/// with a non-zero status, a file could not be read or written, persisted
/// data did not parse, captured output was not text, or the workflow was
/// driven with an event it did not expect.
#[derive(Clone, Copy, PartialEq, Eq, Structural, Debug)]
pub enum ErrorKind {
    Spawn,
    ExitStatus,
    Io,
    ParseData,
    Encoding,
    Internal,
}

/// An error as it is reported: its kind and its context message.
#[derive(Debug)]
pub struct KpError {
    pub kind: ErrorKind,
    pub message: String,
}

/// The mathematical value of a `KpError`.
pub struct KpErrorV {
    pub kind: ErrorKind,
    pub message: Seq<char>,
}

impl View for KpError {
    type V = KpErrorV;

    open spec fn view(&self) -> KpErrorV {
        KpErrorV { kind: self.kind, message: self.message@ }
    }
}

impl KpError {
    pub fn new(kind: ErrorKind, message: String) -> (r: KpError)
        ensures
            r@ == (KpErrorV { kind, message: message@ }),
    {
        KpError { kind, message }
    }

    /// The line printed to the error stream before the process exits
    /// with status 1.
    pub fn render(&self) -> (r: String)
        ensures
            r@ == "Error: "@ + self@.message,
    {
        String::from_str("Error: ").concat(self.message.as_str())
    }
}

} // verus!
