//! What a transaction manager asks of a resource manager, in the form of
//! the XA standard: one request for several purposes, told apart by flags.

use crate::flags::{Flags, END_RECOVERY_SCAN, JOIN, ONE_PHASE, RESUME, START_RECOVERY_SCAN, SUCCESS, FAIL};
use crate::return_code::ReturnCode;
use crate::rm::resource_manager::{Exchange, Operation, Scan};
use crate::rm_error::RmError;
use crate::xa_transaction_id::{XaTransactionId, Xid};
use vstd::prelude::*;

verus! {

/// One request to a resource manager that is close to the XA standard,
/// together with its answer. `flags` are the bits of the flags of the request.
pub enum CExchange {
    /// Start or resume the work on behalf of a branch.
    Start { xid: Xid, flags: u32, outcome: Result<ReturnCode, RmError> },
    /// End the work on behalf of a branch.
    End { xid: Xid, flags: u32, outcome: Result<ReturnCode, RmError> },
    /// Prepare to commit the work done in a branch.
    Prepare { xid: Xid, outcome: Result<ReturnCode, RmError> },
    /// Commit the work done in a branch.
    Commit { xid: Xid, flags: u32, outcome: Result<ReturnCode, RmError> },
    /// Roll back the work done in a branch.
    Rollback { xid: Xid, outcome: Result<ReturnCode, RmError> },
    /// Forget about a heuristically completed branch.
    Forget { xid: Xid, outcome: Result<ReturnCode, RmError> },
    /// List the branches that are prepared or heuristically completed.
    Recover { flags: u32, found: Result<Seq<Xid>, RmError> },
}

impl CExchange {
    /// The same exchange as [`ResourceManager`](crate::rm::ResourceManager)
    /// names it: the flags decide between the requests of one kind.
    ///
    /// Flags that no request of `ResourceManager` stands for are read as no
    /// flags; an end without a flag as a suspension; a scan without a flag
    /// as a whole scan.
    pub open spec fn named(self) -> Exchange {
        match self {
            CExchange::Start { xid, flags, outcome } => Exchange::Branch {
                op: if flags == JOIN {
                    Operation::StartByJoining
                } else if flags == RESUME {
                    Operation::StartByResuming
                } else {
                    Operation::Start
                },
                xid,
                outcome,
            },
            CExchange::End { xid, flags, outcome } => Exchange::Branch {
                op: if flags == SUCCESS {
                    Operation::EndSuccess
                } else if flags == FAIL {
                    Operation::EndFailure
                } else {
                    Operation::EndSuspend
                },
                xid,
                outcome,
            },
            CExchange::Prepare { xid, outcome } => Exchange::Branch {
                op: Operation::Prepare,
                xid,
                outcome,
            },
            CExchange::Commit { xid, flags, outcome } => Exchange::Branch {
                op: if flags == ONE_PHASE {
                    Operation::CommitOnePhase
                } else {
                    Operation::Commit
                },
                xid,
                outcome,
            },
            CExchange::Rollback { xid, outcome } => Exchange::Branch {
                op: Operation::Rollback,
                xid,
                outcome,
            },
            CExchange::Forget { xid, outcome } => Exchange::Branch {
                op: Operation::Forget,
                xid,
                outcome,
            },
            CExchange::Recover { flags, found } => Exchange::Recovery {
                scan: if flags == START_RECOVERY_SCAN {
                    Scan::Begin
                } else if flags == END_RECOVERY_SCAN {
                    Scan::End
                } else {
                    Scan::Whole
                },
                found,
            },
        }
    }
}

/// The record of the exchanges of a resource manager that is close to the
/// XA standard.
pub type CHistory = Seq<CExchange>;

/// Interface of a resource manager that is close to the XA standard.
///
/// As with [`ResourceManager`](crate::rm::ResourceManager), the contracts
/// promise nothing of the answers: they say that `requests` is the record of
/// the exchanges.
pub trait CResourceManager {
    /// Everything this resource manager was asked so far, with its answers,
    /// the oldest exchange first.
    ///
    /// This is for contracts only, and never called. An implementation that
    /// is verified says here how its state holds the record; one that is not
    /// gives it a body that is never reached.
    spec fn requests(&self) -> CHistory;

    /// Tells the server to start or resume the work on behalf of a given transaction branch.
    ///
    /// # Arguments
    ///
    /// * `id` - The id of the transaction branch.
    /// * `flag` - One of `Flags::default()`, `Flags::join()`, `Flags::resume()`.
    ///
    /// # Errors
    ///
    /// `RmError` if the request cannot be handled regularily.
    fn start(&mut self, id: &XaTransactionId, flag: Flags) -> (r: Result<ReturnCode, RmError>)
        ensures
            final(self).requests() == old(self).requests().push(
                CExchange::Start { xid: id@, flags: flag@, outcome: r },
            ),
    ;

    /// Tells the server to end work on behalf of a given transaction branch.
    ///
    /// # Arguments
    ///
    /// * `id` - The id of the transaction branch.
    /// * `flag` - One of `Flags::success()`, `Flags::fail()`, or `Flags::suspend()`.
    ///
    /// # Errors
    ///
    /// `RmError` if the request cannot be handled regularily.
    fn end(&mut self, id: &XaTransactionId, flag: Flags) -> (r: Result<ReturnCode, RmError>)
        ensures
            final(self).requests() == old(self).requests().push(
                CExchange::End { xid: id@, flags: flag@, outcome: r },
            ),
    ;

    /// Tells the server to prepare to commit the work done in the given transaction branch.
    ///
    /// # Arguments
    ///
    /// * `id` - The id of the transaction branch.
    ///
    /// # Errors
    ///
    /// `RmError` if the request cannot be handled regularily.
    fn prepare(&mut self, id: &XaTransactionId) -> (r: Result<ReturnCode, RmError>)
        ensures
            final(self).requests() == old(self).requests().push(
                CExchange::Prepare { xid: id@, outcome: r },
            ),
    ;

    /// Tells the server to commit the work done in the given transaction branch.
    ///
    /// # Arguments
    ///
    /// * `id` - The id of the transaction branch.
    /// * `flag` - One of `Flags::one_phase()`, `Flags::default()`.
    ///
    /// # Errors
    ///
    /// `RmError` if the request cannot be handled regularily.
    fn commit(&mut self, id: &XaTransactionId, flag: Flags) -> (r: Result<ReturnCode, RmError>)
        ensures
            final(self).requests() == old(self).requests().push(
                CExchange::Commit { xid: id@, flags: flag@, outcome: r },
            ),
    ;

    /// Tells the server to roll back the work done in the given transaction branch.
    ///
    /// # Arguments
    ///
    /// * `id` - The id of the transaction branch.
    ///
    /// # Errors
    ///
    /// `RmError` if the request cannot be handled regularily.
    fn rollback(&mut self, id: &XaTransactionId) -> (r: Result<ReturnCode, RmError>)
        ensures
            final(self).requests() == old(self).requests().push(
                CExchange::Rollback { xid: id@, outcome: r },
            ),
    ;

    /// Tells the server to forget about a heuristically completed transaction.
    ///
    /// # Arguments
    ///
    /// * `id` - The id of the transaction branch.
    ///
    /// # Errors
    ///
    /// `RmError` if the request cannot be handled regularily.
    fn forget(&mut self, id: &XaTransactionId) -> (r: Result<ReturnCode, RmError>)
        ensures
            final(self).requests() == old(self).requests().push(
                CExchange::Forget { xid: id@, outcome: r },
            ),
    ;

    /// Returns a list of transactions that have been prepared or heuristically completed.
    ///
    /// # Arguments
    ///
    /// * `flag` - One of `Flags::start_recovery_scan()`, `Flags::end_recovery_scan()`,
    ///   both, or none.
    ///
    /// # Errors
    ///
    /// `RmError` if the request cannot be handled regularily.
    fn recover(&mut self, flag: Flags) -> (r: Result<Vec<XaTransactionId>, RmError>)
        ensures
            final(self).requests() == old(self).requests().push(
                CExchange::Recover {
                    flags: flag@,
                    found: crate::rm::resource_manager::found(r),
                },
            ),
    ;
}

} // verus!
