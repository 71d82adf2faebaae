//! The error of a transaction manager.

use crate::rm_error::RmError;
use vstd::prelude::*;

verus! {

/// Abbreviation for `Result<T, XaError>`.
pub type XaResult<T> = Result<T, XaError>;

/// Error of Transaction Manager.
#[derive(Debug)]
pub enum XaError {
    /// Error was caused by one or multiple Resource Manager Errors: one entry
    /// for each resource manager that failed in the step, none left out.
    RmErrors(Vec<RmError>),
    /// Error was caused by wrong methods calls (wrong state, or wrong parameters).
    Usage(&'static str),
    /// Error was caused by wrong methods calls (wrong state, or wrong parameters).
    UsageDetails(String),
    /// Some resource managers responded with unexpected errors,
    /// leaving the whole system potentially in an inconsistent state.
    Inconsistency(String, Vec<RmError>),
    /// Reading an `XaTransactionId` from a byte stream failed.
    ReadXid(String),
}

impl XaError {
    /// The description of the error, as a sequence of characters.
    pub open spec fn description(&self) -> Seq<char> {
        match *self {
            XaError::RmErrors(_) => "Error was caused by one or multiple Resource Manager Errors"@,
            XaError::Usage(s) => s@,
            XaError::UsageDetails(s) => s@,
            XaError::ReadXid(s) => s@,
            XaError::Inconsistency(s, _) => s@,
        }
    }

    /// Returns a textual description of the error.
    pub fn get_description(&self) -> (s: String)
        ensures
            s@ == self.description(),
    {
        match self {
            XaError::RmErrors(_) => {
                "Error was caused by one or multiple Resource Manager Errors".to_owned()
            },
            XaError::Usage(s) => (*s).to_owned(),
            XaError::UsageDetails(s) => s.clone(),
            XaError::ReadXid(s) => s.clone(),
            XaError::Inconsistency(s, _) => s.clone(),
        }
    }
}

} // verus!
