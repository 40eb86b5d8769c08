//! The error type shared by every fallible operation of the crate.

use vstd::prelude::*;
use vstd::string::*;

verus! {

/// A human-readable failure description.
#[derive(Debug, Clone, PartialEq, Eq)]
pub struct Error {
    details: String,
}

impl View for Error {
    type V = Seq<char>;

    closed spec fn view(&self) -> Seq<char> {
        self.details@
    }
}

impl Error {
    /// Creates an error that carries `details` verbatim.
    pub fn new(details: &str) -> (e: Error)
        ensures
            e@ == details@,
    {
        Error { details: String::from_str(details) }
    }

    /// The message this error was created with.
    pub fn details(&self) -> (s: &str)
        ensures
            s@ == self@,
    {
        self.details.as_str()
    }

    /// The message as an owned string.
    pub fn to_text(&self) -> (s: String)
        ensures
            s@ == self@,
    {
        self.details.clone()
    }
}

} // verus!
