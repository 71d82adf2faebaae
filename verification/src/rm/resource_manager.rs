//! What a transaction manager asks of a resource manager, and the record of
//! what it asked.

use crate::return_code::ReturnCode;
use crate::rm_error::RmError;
use crate::xa_transaction_id::{XaTransactionId, Xid};
use vstd::prelude::*;

verus! {

/// The requests that name one transaction branch.
#[derive(Clone, Copy, Debug, PartialEq, Eq, Structural)]
pub enum Operation {
    /// Start work on behalf of the branch.
    Start,
    /// Join the work on behalf of a branch that the resource manager has seen.
    StartByJoining,
    /// Resume the work on behalf of a suspended branch.
    StartByResuming,
    /// End the work on behalf of the branch, which was done successfully.
    EndSuccess,
    /// End the work on behalf of the branch, which has failed.
    EndFailure,
    /// Suspend the work on behalf of the branch.
    EndSuspend,
    /// Prepare to commit the work done in the branch.
    Prepare,
    /// Commit the work done in the prepared branch.
    Commit,
    /// Commit the work done in the branch, which was not prepared.
    CommitOnePhase,
    /// Roll back the work done in the branch.
    Rollback,
    /// Forget about the heuristically completed branch.
    Forget,
}

/// The scope of a request for the branches that a resource manager holds.
#[derive(Clone, Copy, Debug, PartialEq, Eq, Structural)]
pub enum Scan {
    /// A whole recovery scan, started and ended by the one request.
    Whole,
    /// The start of a recovery scan.
    Begin,
    /// The end of the current recovery scan.
    End,
}

/// One request to a resource manager together with its answer.
pub enum Exchange {
    /// A request that names a branch.
    Branch { op: Operation, xid: Xid, outcome: Result<ReturnCode, RmError> },
    /// A request for the branches that are prepared or heuristically
    /// completed.
    Recovery { scan: Scan, found: Result<Seq<Xid>, RmError> },
}

impl Exchange {
    /// Whether this is the request `op` for the branch `xid`, whatever the
    /// answer was.
    pub open spec fn asks(self, op: Operation, xid: Xid) -> bool {
        match self {
            Exchange::Branch { op: o, xid: x, .. } => o == op && x == xid,
            Exchange::Recovery { .. } => false,
        }
    }

    /// The error in the answer, if this was a request that names a branch and
    /// the resource manager failed it.
    pub open spec fn failure(self) -> Option<RmError> {
        match self {
            Exchange::Branch { outcome: Err(e), .. } => Some(e),
            _ => None,
        }
    }
}

/// The answer to a recovery request as the history records it.
pub open spec fn found(r: Result<Vec<XaTransactionId>, RmError>) -> Result<Seq<Xid>, RmError> {
    match r {
        Ok(ids) => Ok(crate::xa_transaction_id::xids(ids@)),
        Err(e) => Err(e),
    }
}

/// The record of the exchanges of a resource manager.
pub type History = Seq<Exchange>;

/// Interface of a resource manager, as required by a transaction manager.
///
/// Every method is one exchange. Its contract promises nothing of the
/// answer: it says that `history` is the record of the exchanges, so that the
/// contracts of a transaction manager can say what it asked of whom, and
/// what it made of the answers.
pub trait ResourceManager {
    /// Everything this resource manager was asked so far, with its answers,
    /// the oldest exchange first.
    ///
    /// This is for contracts only, and never called. An implementation that
    /// is verified says here how its state holds the record; one that is not
    /// gives it a body that is never reached.
    spec fn history(&self) -> History;

    /// Tells the server to start work on behalf of the given transaction branch.
    ///
    /// # Errors
    ///
    /// `RmError` if the request cannot be handled regularily.
    fn start(&mut self, id: &XaTransactionId) -> (r: Result<ReturnCode, RmError>)
        ensures
            final(self).history() == old(self).history().push(
                Exchange::Branch { op: Operation::Start, xid: id@, outcome: r },
            ),
    ;

    /// Tells the server to join working on behalf of the given transaction branch.
    ///
    /// # Errors
    ///
    /// `RmError` if the request cannot be handled regularily.
    fn start_by_joining(&mut self, id: &XaTransactionId) -> (r: Result<ReturnCode, RmError>)
        ensures
            final(self).history() == old(self).history().push(
                Exchange::Branch { op: Operation::StartByJoining, xid: id@, outcome: r },
            ),
    ;

    /// Tells the server to resume working on behalf of the given transaction branch.
    ///
    /// # Errors
    ///
    /// `RmError` if the request cannot be handled regularily.
    fn start_by_resuming(&mut self, id: &XaTransactionId) -> (r: Result<ReturnCode, RmError>)
        ensures
            final(self).history() == old(self).history().push(
                Exchange::Branch { op: Operation::StartByResuming, xid: id@, outcome: r },
            ),
    ;

    /// Tells the server to end working on behalf of the given transaction branch.
    ///
    /// # Errors
    ///
    /// `RmError` if the request cannot be handled regularily.
    fn end_success(&mut self, id: &XaTransactionId) -> (r: Result<ReturnCode, RmError>)
        ensures
            final(self).history() == old(self).history().push(
                Exchange::Branch { op: Operation::EndSuccess, xid: id@, outcome: r },
            ),
    ;

    /// Tells the server to stop working on behalf of the given transaction branch, transaction
    /// will not be committed.
    ///
    /// # Errors
    ///
    /// `RmError` if the request cannot be handled regularily.
    fn end_failure(&mut self, id: &XaTransactionId) -> (r: Result<ReturnCode, RmError>)
        ensures
            final(self).history() == old(self).history().push(
                Exchange::Branch { op: Operation::EndFailure, xid: id@, outcome: r },
            ),
    ;

    /// Tells the server to suspend working on behalf of the given transaction branch.
    ///
    /// # Errors
    ///
    /// `RmError` if the request cannot be handled regularily.
    fn end_suspend(&mut self, id: &XaTransactionId) -> (r: Result<ReturnCode, RmError>)
        ensures
            final(self).history() == old(self).history().push(
                Exchange::Branch { op: Operation::EndSuspend, xid: id@, outcome: r },
            ),
    ;

    /// Tells the server to prepare to commit the work done in the given transaction branch.
    ///
    /// # Errors
    ///
    /// `RmError` if the request cannot be handled regularily.
    fn prepare(&mut self, id: &XaTransactionId) -> (r: Result<ReturnCode, RmError>)
        ensures
            final(self).history() == old(self).history().push(
                Exchange::Branch { op: Operation::Prepare, xid: id@, outcome: r },
            ),
    ;

    /// Tells the server to commit the work done in the given prepared transaction branch.
    ///
    /// # Errors
    ///
    /// `RmError` if the request cannot be handled regularily.
    fn commit(&mut self, id: &XaTransactionId) -> (r: Result<ReturnCode, RmError>)
        ensures
            final(self).history() == old(self).history().push(
                Exchange::Branch { op: Operation::Commit, xid: id@, outcome: r },
            ),
    ;

    /// Tells the server to commit the work done in the given not-prepared transaction branch.
    ///
    /// # Errors
    ///
    /// `RmError` if the request cannot be handled regularily.
    fn commit_one_phase(&mut self, id: &XaTransactionId) -> (r: Result<ReturnCode, RmError>)
        ensures
            final(self).history() == old(self).history().push(
                Exchange::Branch { op: Operation::CommitOnePhase, xid: id@, outcome: r },
            ),
    ;

    /// Tells the server to rollback the work done in the given transaction branch.
    ///
    /// # Errors
    ///
    /// `RmError` if the request cannot be handled regularily.
    fn rollback(&mut self, id: &XaTransactionId) -> (r: Result<ReturnCode, RmError>)
        ensures
            final(self).history() == old(self).history().push(
                Exchange::Branch { op: Operation::Rollback, xid: id@, outcome: r },
            ),
    ;

    /// Tells the server to forget about the given heuristically completed transaction.
    ///
    /// # Errors
    ///
    /// `RmError` if the request cannot be handled regularily.
    fn forget(&mut self, id: &XaTransactionId) -> (r: Result<ReturnCode, RmError>)
        ensures
            final(self).history() == old(self).history().push(
                Exchange::Branch { op: Operation::Forget, xid: id@, outcome: r },
            ),
    ;

    /// Returns the list of transactions that have been prepared or heuristically
    /// completed.
    ///
    /// # Errors
    ///
    /// `RmError` if the request cannot be handled regularily.
    fn recover(&mut self) -> (r: Result<Vec<XaTransactionId>, RmError>)
        ensures
            final(self).history() == old(self).history().push(
                Exchange::Recovery { scan: Scan::Whole, found: found(r) },
            ),
    ;

    /// Returns the list of transactions that have been prepared or heuristically
    /// completed.
    ///
    /// # Errors
    ///
    /// `RmError` if the request cannot be handled regularily.
    fn begin_recover(&mut self) -> (r: Result<Vec<XaTransactionId>, RmError>)
        ensures
            final(self).history() == old(self).history().push(
                Exchange::Recovery { scan: Scan::Begin, found: found(r) },
            ),
    ;

    /// Returns the list of transactions that have been prepared or heuristically
    /// completed.
    ///
    /// # Errors
    ///
    /// `RmError` if the request cannot be handled regularily.
    fn end_recover(&mut self) -> (r: Result<Vec<XaTransactionId>, RmError>)
        ensures
            final(self).history() == old(self).history().push(
                Exchange::Recovery { scan: Scan::End, found: found(r) },
            ),
    ;
}

/// A boxed resource manager is a resource manager: the box hands every
/// request on. With `Box<dyn ResourceManager>` one transaction manager can
/// hold resource managers of different types.
impl<T: ResourceManager + ?Sized> ResourceManager for Box<T> {
    open spec fn history(&self) -> Seq<Exchange> {
        (**self).history()
    }

    fn start(&mut self, id: &XaTransactionId) -> (r: Result<ReturnCode, RmError>) {
        (**self).start(id)
    }

    fn start_by_joining(&mut self, id: &XaTransactionId) -> (r: Result<ReturnCode, RmError>) {
        (**self).start_by_joining(id)
    }

    fn start_by_resuming(&mut self, id: &XaTransactionId) -> (r: Result<ReturnCode, RmError>) {
        (**self).start_by_resuming(id)
    }

    fn end_success(&mut self, id: &XaTransactionId) -> (r: Result<ReturnCode, RmError>) {
        (**self).end_success(id)
    }

    fn end_failure(&mut self, id: &XaTransactionId) -> (r: Result<ReturnCode, RmError>) {
        (**self).end_failure(id)
    }

    fn end_suspend(&mut self, id: &XaTransactionId) -> (r: Result<ReturnCode, RmError>) {
        (**self).end_suspend(id)
    }

    fn prepare(&mut self, id: &XaTransactionId) -> (r: Result<ReturnCode, RmError>) {
        (**self).prepare(id)
    }

    fn commit(&mut self, id: &XaTransactionId) -> (r: Result<ReturnCode, RmError>) {
        (**self).commit(id)
    }

    fn commit_one_phase(&mut self, id: &XaTransactionId) -> (r: Result<ReturnCode, RmError>) {
        (**self).commit_one_phase(id)
    }

    fn rollback(&mut self, id: &XaTransactionId) -> (r: Result<ReturnCode, RmError>) {
        (**self).rollback(id)
    }

    fn forget(&mut self, id: &XaTransactionId) -> (r: Result<ReturnCode, RmError>) {
        (**self).forget(id)
    }

    fn recover(&mut self) -> (r: Result<Vec<XaTransactionId>, RmError>) {
        (**self).recover()
    }

    fn begin_recover(&mut self) -> (r: Result<Vec<XaTransactionId>, RmError>) {
        (**self).begin_recover()
    }

    fn end_recover(&mut self) -> (r: Result<Vec<XaTransactionId>, RmError>) {
        (**self).end_recover()
    }
}

/// Makes the request `op` for the branch `id` of the resource manager `rm`.
pub fn perform<R: ResourceManager + ?Sized>(rm: &mut R, op: Operation, id: &XaTransactionId) -> (r:
    Result<ReturnCode, RmError>)
    ensures
        final(rm).history() == old(rm).history().push(
            Exchange::Branch { op, xid: id@, outcome: r },
        ),
{
    match op {
        Operation::Start => rm.start(id),
        Operation::StartByJoining => rm.start_by_joining(id),
        Operation::StartByResuming => rm.start_by_resuming(id),
        Operation::EndSuccess => rm.end_success(id),
        Operation::EndFailure => rm.end_failure(id),
        Operation::EndSuspend => rm.end_suspend(id),
        Operation::Prepare => rm.prepare(id),
        Operation::Commit => rm.commit(id),
        Operation::CommitOnePhase => rm.commit_one_phase(id),
        Operation::Rollback => rm.rollback(id),
        Operation::Forget => rm.forget(id),
    }
}

} // verus!
