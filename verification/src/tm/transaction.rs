//! The transaction of the calling thread.

use crate::tm::tm_error::TmError;
use vstd::prelude::*;

verus! {

/// The transaction that is associated with the caller, for applications
/// that have one at a time.
pub trait Transaction {
    /// Complete the transaction represented by this Transaction object.
    fn commit() -> Result<(), TmError>;

    /// Obtain the status of the transaction associated with the target Transaction object.
    fn get_status() -> Result<i32, TmError>;

    /// Rollback the transaction represented by this Transaction object.
    fn rollback() -> Result<(), TmError>;

    /// Mark this transaction that its only possible outcome is to be rolled back.
    fn set_rollbackonly() -> Result<(), TmError>;
}

} // verus!
