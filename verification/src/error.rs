//! The errors that ingestion reports.

use vstd::prelude::*;

verus! {

/// What went wrong, so that a caller can react to each kind in its own way.
#[derive(Clone, Copy, Debug, PartialEq, Eq, Structural)]
pub enum ErrorKind {
    /// The reader failed while a line was being read.
    ReadFailure,
    /// A line that is not blank is not a JSON value.
    MalformedRecord,
    /// A value cannot be stored in the column it was meant for.
    FieldCoercion,
    /// A setting was given a value that it cannot have.
    BadArguments,
}

/// An error with its kind and a message for the person who reads it.
#[derive(Debug, PartialEq, Eq)]
pub struct ErrorCode {
    pub kind: ErrorKind,
    pub message: String,
}

impl ErrorCode {
    pub fn new(kind: ErrorKind, message: String) -> (e: ErrorCode)
        ensures
            e.kind == kind,
            e.message@ == message@,
    {
        ErrorCode { kind, message }
    }

    pub fn kind(&self) -> (k: ErrorKind)
        ensures
            k == self.kind,
    {
        self.kind
    }

    pub fn message(&self) -> (m: &str)
        ensures
            m@ == self.message@,
    {
        self.message.as_str()
    }
}

} // verus!
