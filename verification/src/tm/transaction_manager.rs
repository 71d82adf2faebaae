//! What an application asks of a transaction manager.

use crate::rm::resource_manager::ResourceManager;
use crate::tm::status::Status;
use crate::xa_error::XaError;
use vstd::prelude::*;

verus! {

/// A transaction manager for distributed transactions.
///
/// Use register()/unregister() to define the set of resource managers
/// you want to (potentially) take part in subsequent transactions.
///
/// Then use `start_transaction()` to start a transaction. The rest is done on the
/// application interfaces of the resource manager and on the transaction object.
pub trait TransactionManager {
    /// The type of the resource managers that can be registered.
    type Rm: ResourceManager;

    /// Register a `ResourceManager`.
    ///
    /// Note that each registration must use a different `rm_id` - overwrites will not be allowed.
    ///
    /// # Errors
    ///
    /// `XaError` if the request cannot be handled regularily.
    fn register(&mut self, rm: Self::Rm, rm_id: u64, cleanup: bool) -> Result<(), XaError>;

    /// Unregister a `ResourceManager`.
    ///
    /// # Errors
    ///
    /// `XaError` if the request cannot be handled regularily.
    fn unregister(&mut self, rm_id: u64) -> Result<(), XaError>;

    /// Starts a new transaction with a fresh global TA ID and one branch per registered RM.
    ///
    /// The method fails if the last transaction is not yet completed.
    ///
    /// # Errors
    ///
    /// `XaError` if the request cannot be handled regularily.
    fn start_transaction(&mut self) -> Result<(), XaError>;

    /// Completes the transaction, if it is in state `Status::Active`.
    ///
    /// If successful, the transaction is set to state `Status::Committed`.
    ///
    /// # Errors
    ///
    /// `XaError` if the request cannot be handled regularily.
    fn commit_transaction(&mut self) -> Result<(), XaError>;

    /// Rolls the transaction back, discarding all changes, and setting the status to
    /// `Status::RolledBack`.
    ///
    /// # Errors
    ///
    /// `XaError` if the request cannot be handled regularily.
    fn rollback_transaction(&mut self) -> Result<(), XaError>;

    /// Mark the transaction that its only possible outcome is to be rolled back.
    ///
    /// # Errors
    ///
    /// `XaError` if the request cannot be handled regularily.
    fn set_transaction_rollbackonly(&mut self) -> Result<(), XaError>;

    /// Returns the status of the transaction.
    ///
    /// # Errors
    ///
    /// `XaError` if the request cannot be handled regularily.
    fn get_status(&mut self) -> Result<Status, XaError>;
}

} // verus!
