//! The error of this crate.

use vstd::prelude::*;

verus! {

/// What can go wrong in this crate.
#[derive(Debug, PartialEq, Eq)]
pub enum Error {
    /// An error that is told in words.
    Other(String),
}

impl Error {
    /// The words of the error.
    pub open spec fn spec_message(&self) -> Seq<char> {
        match self {
            Error::Other(message) => message@,
        }
    }

    /// An error that is told in the words of `message`.
    pub fn other(message: &str) -> (error: Error)
        ensures
            error.spec_message() == message@,
    {
        Error::Other(message.to_owned())
    }

    /// The words of the error.
    pub fn message(&self) -> (message: &str)
        ensures
            message@ == self.spec_message(),
    {
        match self {
            Error::Other(message) => message.as_str(),
        }
    }
}

} // verus!
