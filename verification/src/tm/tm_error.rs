//! The error of a transaction.

use crate::rm_error::RmError;
use vstd::prelude::*;

verus! {

/// Abbreviation for `Result<T, TmError>`.
pub type TmResult<T> = Result<T, TmError>;

/// Error of Transaction Manager.
#[derive(Debug)]
pub enum TmError {
    /// Error was caused by one or multiple Resource Manager Errors.
    RmError(Vec<RmError>),
    /// Error was caused by wrong methods calls (wrong state, or wrong parameters).
    Usage(&'static str),
}

} // verus!
