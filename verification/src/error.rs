//! The error type shared by every stage of the bootstrap.

use vstd::prelude::*;

verus! {

/// What went wrong, independent of the stage that noticed it.
#[derive(Clone, Copy, Debug, PartialEq, Eq, Structural)]
pub enum ErrorKind {
    /// A required element (kernel image, export, structure, field, start block) is absent.
    NotFound,
    /// The bytes at hand are not a usable PE image.
    InvalidExeFile,
    /// Debug symbols could not be parsed or a required offset is missing.
    Offset,
    /// The symbol store could not deliver the requested file.
    Http,
    /// The local file system refused an operation on the symbol cache.
    Io,
    /// A name that has to be text is not valid UTF-8.
    Encoding,
    /// The caller left out a mandatory input.
    Configuration,
}

/// An error with its kind and a short diagnostic.
#[derive(Clone, Copy, Debug, PartialEq, Eq)]
pub struct Error {
    pub kind: ErrorKind,
    pub message: &'static str,
}

impl Error {
    pub fn new(kind: ErrorKind, message: &'static str) -> (e: Error)
        ensures
            e.kind == kind,
            e.message@ == message@,
    {
        Error { kind, message }
    }

    /// The diagnostic as an owned string.
    pub fn to_string(&self) -> (s: String)
        ensures
            s@ == self.message@,
    {
        String::from_str(self.message)
    }
}

} // verus!
