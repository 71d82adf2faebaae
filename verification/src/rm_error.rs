//! The error of a resource manager.

use crate::error_code::ErrorCode;
use vstd::prelude::*;

verus! {

/// Represents the possible errors that can occur in a `ResourceManager`:
/// the kind of error and a description in words.
#[derive(Debug)]
pub struct RmError {
    c: ErrorCode,
    s: String,
}

/// The short name of [`RmError`].
pub type Error = RmError;

/// An abbreviation of `Result<T, RmError>`.
pub type RmResult<T> = Result<T, RmError>;

impl RmError {
    /// The kind of error.
    pub closed spec fn code(&self) -> ErrorCode {
        self.c
    }

    /// The description, as a sequence of characters.
    pub closed spec fn description(&self) -> Seq<char> {
        self.s@
    }

    /// Factory method.
    #[must_use]
    pub fn new(c: ErrorCode, s: String) -> (e: RmError)
        ensures
            e.code() == c,
            e.description() == s@,
    {
        RmError { c, s }
    }

    /// Returns the kind of error that has occured.
    #[must_use]
    pub fn get_code(&self) -> (c: ErrorCode)
        ensures
            c == self.code(),
    {
        self.c
    }

    /// Returns a textual description of the error.
    #[must_use]
    pub fn get_description(&self) -> (s: String)
        ensures
            s@ == self.description(),
    {
        self.s.clone()
    }
}

} // verus!
