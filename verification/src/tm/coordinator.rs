//! The state of a transaction manager as a mathematical value, and the
//! relations between two such states that the contracts of
//! [`SimpleTransactionManager`](super::SimpleTransactionManager) are made of.

use crate::rm::resource_manager::{Exchange, Operation, Scan};
use crate::rm_error::RmError;
use crate::tm::status::Status;
use crate::xa_error::XaError;
use crate::xa_transaction_id::Xid;
use vstd::prelude::*;

verus! {

/// The format id that is used for the `XaTransactionId`s of `SimpleTransactionManager`.
pub const FORMAT_ID: i32 = 99;

/// A resource manager as its transaction manager knows it.
pub struct Participant {
    /// The id under which it was registered.
    pub rm_id: u64,
    /// Everything it was asked so far, with its answers.
    pub history: Seq<Exchange>,
}

/// One request of a step: which resource manager was asked, and what.
pub struct Request {
    /// The id under which the resource manager is registered.
    pub rm_id: u64,
    /// What it was asked for its branch.
    pub op: Operation,
}

/// The state of a transaction manager.
pub struct Coordinator {
    /// The name that the application gave it.
    pub name: Seq<char>,
    /// The number made from the name, by which it knows its own branches.
    pub identity: u64,
    /// The registered resource managers, in the order of their registration.
    pub participants: Seq<Participant>,
    /// The requests of all steps so far, to whichever resource manager, in
    /// the order in which they were made.
    pub record: Seq<Request>,
    /// The number of the global transaction that was started last; 0 before
    /// the first.
    pub last_gtid: u64,
    /// The number of the global transaction that is under way, if one is.
    pub current_gtid: Option<u64>,
    /// The state in the life of a global transaction.
    pub status: Status,
}

/// The id of the branch that the resource manager `rm_id` works on for the
/// global transaction `gtid` of the transaction manager `tm_id`.
pub open spec fn branch_xid(gtid: u64, tm_id: u64, rm_id: u64) -> Xid {
    Xid {
        format_id: FORMAT_ID as int,
        global_tid: crate::le::le_bytes_u64(gtid),
        branch_qualifier: crate::le::le_bytes_u64(tm_id) + crate::le::le_bytes_u64(rm_id),
    }
}

/// Whether `xid` names a branch of the resource manager `rm_id` in some
/// global transaction of the transaction manager `tm_id`.
pub open spec fn stamped(xid: Xid, tm_id: u64, rm_id: u64) -> bool {
    &&& xid.format_id == FORMAT_ID
    &&& xid.branch_qualifier == crate::le::le_bytes_u64(tm_id) + crate::le::le_bytes_u64(rm_id)
}

/// Those of the ids in `found` that are stamped with `tm_id` and `rm_id`, in
/// their order.
pub open spec fn stamped_among(found: Seq<Xid>, tm_id: u64, rm_id: u64) -> Seq<Xid>
    decreases found.len(),
{
    if found.len() == 0 {
        Seq::empty()
    } else {
        let before = stamped_among(found.drop_last(), tm_id, rm_id);
        if stamped(found.last(), tm_id, rm_id) {
            before.push(found.last())
        } else {
            before
        }
    }
}

/// The requests of one step to `participants`: each is asked `op`, in the
/// order of their registration.
pub open spec fn step_requests(participants: Seq<Participant>, op: Operation) -> Seq<Request> {
    Seq::new(participants.len(), |k: int| Request { rm_id: participants[k].rm_id, op })
}

/// The requests of the steps `ops` to `participants`: all requests of one
/// step, then all requests of the next.
pub open spec fn steps_requests(participants: Seq<Participant>, ops: Seq<Operation>) -> Seq<
    Request,
>
    decreases ops.len(),
{
    if ops.len() == 0 {
        Seq::empty()
    } else {
        steps_requests(participants, ops.drop_last()) + step_requests(participants, ops.last())
    }
}

/// The message of the error for a request that the state does not allow.
pub open spec fn state_message(actual: Status, required: Seq<Status>) -> Seq<char> {
    "SimpleTransactionManager is in state "@ + actual.name() + ", but state "@ + Status::names(
        required,
    ) + " is required"@
}

/// The message of the error for a rollback that failed after the step
/// `method` of a commit had failed.
pub open spec fn inconsistency_message(method: Seq<char>) -> Seq<char> {
    "rm_rollback() failed after a failed "@ + method + "()"@
}

/// Whether `r` reports the failures `errors` of one step: success where
/// there is none, otherwise all of them, in their order.
pub open spec fn reports(r: Result<(), XaError>, errors: Seq<RmError>) -> bool {
    match r {
        Ok(_) => errors.len() == 0,
        Err(XaError::RmErrors(v)) => errors.len() > 0 && v@ == errors,
        Err(_) => false,
    }
}

/// Whether `r` is what a commit returns after its step `method` failed with
/// `errors` and all branches were then asked to roll back, which failed
/// with `rollback_errors`: the failures of the step where the rollback went
/// well, and otherwise an inconsistency that names the step and holds the
/// failures of the rollback.
pub open spec fn reports_rollback_after(
    r: Result<(), XaError>,
    method: Seq<char>,
    errors: Seq<RmError>,
    rollback_errors: Seq<RmError>,
) -> bool {
    if rollback_errors.len() == 0 {
        r matches Err(XaError::RmErrors(v)) && v@ == errors
    } else {
        r matches Err(XaError::Inconsistency(m, v)) && m@ == inconsistency_message(method) && v@
            == rollback_errors
    }
}

impl Participant {
    /// The exchange number `j` of those that `self` has had since it was
    /// `pre`; the first of them has the number 0.
    pub open spec fn added(self, pre: Participant, j: int) -> Exchange {
        self.history[pre.history.len() + j]
    }

    /// Whether `self` is `pre` after it was asked, for its branch of the
    /// global transaction `gtid` of the transaction manager `tm_id`, what
    /// `ops` lists, in that order, and nothing else.
    pub open spec fn asked(self, pre: Participant, tm_id: u64, gtid: u64, ops: Seq<Operation>) -> bool {
        &&& self.rm_id == pre.rm_id
        &&& self.history.len() == pre.history.len() + ops.len()
        &&& self.history.take(pre.history.len() as int) == pre.history
        &&& forall|j: int|
            0 <= j < ops.len() ==> (#[trigger] self.added(pre, j)).asks(
                ops[j],
                branch_xid(gtid, tm_id, pre.rm_id),
            )
    }
}

/// The errors with which the first `n` resource managers failed the request
/// number `j` of those made since they were `pre`, in the order of the
/// resource managers.
pub open spec fn failures(pre: Seq<Participant>, post: Seq<Participant>, j: int, n: nat) -> Seq<
    RmError,
>
    decreases n,
{
    if n == 0 {
        Seq::empty()
    } else {
        let before = failures(pre, post, j, (n - 1) as nat);
        match post[n - 1].added(pre[n - 1], j).failure() {
            Some(e) => before.push(e),
            None => before,
        }
    }
}

/// Whether `k` is the index of the first of `participants` that has the id
/// `rm_id`.
pub open spec fn is_first_with(participants: Seq<Participant>, rm_id: u64, k: int) -> bool {
    &&& 0 <= k < participants.len()
    &&& participants[k].rm_id == rm_id
    &&& forall|i: int| 0 <= i < k ==> participants[i].rm_id != rm_id
}

/// `participants` without the first that has the id `rm_id`; where no two
/// have the same id, that is without the one that has it.
pub open spec fn without(participants: Seq<Participant>, rm_id: u64) -> Seq<Participant> {
    if exists|k: int| is_first_with(participants, rm_id, k) {
        participants.remove(choose|k: int| is_first_with(participants, rm_id, k))
    } else {
        participants
    }
}

/// Whether `after` is the history of a resource manager whose history was
/// `before` when it was handed over for registration under `rm_id` with the
/// transaction manager `tm_id`.
///
/// Without `cleanup` it was asked nothing. With it, it was asked once for
/// the branches that it holds, and then to forget each branch that it named
/// and that is stamped with `tm_id` and `rm_id`, in the order in which it
/// named them, and no other. What it answered to that is not looked at.
pub open spec fn cleaned_up(
    before: Seq<Exchange>,
    after: Seq<Exchange>,
    tm_id: u64,
    rm_id: u64,
    cleanup: bool,
) -> bool {
    if !cleanup {
        after == before
    } else {
        &&& after.len() > before.len()
        &&& after.take(before.len() as int) == before
        &&& after[before.len() as int] matches Exchange::Recovery { scan: Scan::Whole, found } && {
            let mine = match found {
                Ok(ids) => stamped_among(ids, tm_id, rm_id),
                Err(_) => Seq::empty(),
            };
            let forgotten = after.skip(before.len() as int + 1);
            &&& forgotten.len() == mine.len()
            &&& forall|j: int|
                0 <= j < mine.len() ==> (#[trigger] forgotten[j]).asks(Operation::Forget, mine[j])
        }
    }
}

impl Coordinator {
    /// What holds of a transaction manager at all times: no two resource
    /// managers have the same id; the identity leaves the lowest byte free;
    /// and a global transaction is current only while one is under way, which
    /// is then the one started last.
    pub open spec fn wf(self) -> bool {
        &&& forall|i: int, j: int|
            0 <= i < j < self.participants.len() ==> self.participants[i].rm_id
                != self.participants[j].rm_id
        &&& self.identity & 0xff == 0
        &&& self.status.is_at_rest() ==> self.current_gtid is None
        &&& self.current_gtid matches Some(gtid) ==> gtid == self.last_gtid && gtid > 0
    }

    /// Whether `rm_id` is the id of a registered resource manager.
    pub open spec fn has(self, rm_id: u64) -> bool {
        exists|k: int| 0 <= k < self.participants.len() && self.participants[k].rm_id == rm_id
    }

    /// Whether `self` is `pre` after the steps `ops` for the global
    /// transaction `gtid`. In each step every resource manager was asked for
    /// its branch what the entry of `ops` says, and no step began before the
    /// step before it had asked them all: the record has grown by the
    /// requests of the steps, one step after the other. Nobody was asked
    /// anything else.
    pub open spec fn asked_all(self, pre: Coordinator, gtid: u64, ops: Seq<Operation>) -> bool {
        &&& self.record == pre.record + steps_requests(pre.participants, ops)
        &&& self.participants.len() == pre.participants.len()
        &&& forall|k: int|
            0 <= k < pre.participants.len() ==> (#[trigger] self.participants[k]).asked(
                pre.participants[k],
                pre.identity,
                gtid,
                ops,
            )
    }

    /// The errors with which resource managers failed the step number `j`
    /// of those taken since `pre` (the first step has the number 0), one for
    /// each that failed, in the order of their registration.
    pub open spec fn failed(self, pre: Coordinator, j: int) -> Seq<RmError> {
        failures(pre.participants, self.participants, j, pre.participants.len())
    }

    /// Whether `self` is `pre` after one step for the global transaction
    /// `gtid`: every resource manager was asked `op` for its branch, whether
    /// or not another had failed before, nothing else has changed, and `r`
    /// reports the failures.
    pub open spec fn stepped(
        self,
        pre: Coordinator,
        op: Operation,
        gtid: u64,
        r: Result<(), XaError>,
    ) -> bool {
        &&& self == pre.with(self, pre.status, pre.current_gtid)
        &&& self.asked_all(pre, gtid, seq![op])
        &&& reports(r, self.failed(pre, 0))
    }

    /// `self` with the resource managers and the record of `now`, a new
    /// state and a new current transaction.
    pub open spec fn with(self, now: Coordinator, status: Status, current_gtid: Option<u64>) -> Coordinator {
        Coordinator {
            participants: now.participants,
            record: now.record,
            status,
            current_gtid,
            ..self
        }
    }
}

/// The states in which a global transaction can be started.
pub open spec fn start_states() -> Seq<Status> {
    seq![Status::Idle, Status::Committed, Status::RolledBack]
}

/// The states in which the global transaction can be marked for rollback.
pub open spec fn rollback_only_states() -> Seq<Status> {
    seq![Status::Idle, Status::Active, Status::Prepared, Status::RollbackOnly]
}

/// The steps of a start that had to be tried again: after the start that
/// failed, the work is ended as failed and rolled back, then started anew.
pub open spec fn retried_start() -> Seq<Operation> {
    seq![Operation::Start, Operation::EndFailure, Operation::Rollback, Operation::Start]
}

/// The steps of a two-phase commit.
pub open spec fn commit_steps() -> Seq<Operation> {
    seq![Operation::EndSuccess, Operation::Prepare, Operation::Commit]
}

/// The name of the step number `p` of a two-phase commit in messages.
pub open spec fn commit_step_name(p: int) -> Seq<char> {
    if p == 0 {
        "rm_end_success"@
    } else if p == 1 {
        "rm_prepare"@
    } else {
        "rm_commit"@
    }
}

impl Coordinator {
    /// What `start_transaction` does: `post` is the state after the call on
    /// the state `pre`, and `r` is what the call returns.
    ///
    /// A transaction under way, or no number left for a new one, is an error
    /// that changes nothing. Otherwise the next number is taken, for good.
    /// Where every resource manager starts its branch, the transaction is
    /// active. Where one fails, all are asked to end their work as failed and
    /// to roll back, whatever they answer, and then to start again; where one
    /// fails again, the transaction manager is idle and `r` holds the failures
    /// of this second start.
    pub open spec fn after_start(pre: Coordinator, post: Coordinator, r: Result<(), XaError>) -> bool {
        if !pre.status.is_at_rest() {
            &&& post == pre
            &&& r matches Err(XaError::UsageDetails(m)) && m@ == state_message(
                pre.status,
                start_states(),
            )
        } else if pre.last_gtid == u64::MAX {
            &&& post == pre
            &&& r == Err::<(), XaError>(XaError::Usage("No global transaction id is left"))
        } else {
            let gtid = (pre.last_gtid + 1) as u64;
            &&& post == (Coordinator { last_gtid: gtid, ..pre }).with(
                post,
                post.status,
                post.current_gtid,
            )
            &&& {
                ||| {
                    &&& post.asked_all(pre, gtid, seq![Operation::Start])
                    &&& post.failed(pre, 0).len() == 0
                    &&& post.status == Status::Active
                    &&& post.current_gtid == Some(gtid)
                    &&& r is Ok
                }
                ||| {
                    &&& post.asked_all(pre, gtid, retried_start())
                    &&& post.failed(pre, 0).len() > 0
                    &&& post.failed(pre, 3).len() == 0
                    &&& post.status == Status::Active
                    &&& post.current_gtid == Some(gtid)
                    &&& r is Ok
                }
                ||| {
                    &&& post.asked_all(pre, gtid, retried_start())
                    &&& post.failed(pre, 0).len() > 0
                    &&& post.failed(pre, 3).len() > 0
                    &&& post.status == Status::Idle
                    &&& post.current_gtid == pre.current_gtid
                    &&& reports(r, post.failed(pre, 3))
                }
            }
        }
    }

    /// Whether `self` is `pre` after a two-phase commit of the global
    /// transaction `gtid` that gave up at its step number `p`: the steps
    /// before went well, at this step a resource manager failed, and then
    /// all resource managers were asked to roll back, those that had not
    /// failed too. The transaction manager is idle, without a current
    /// transaction, and `r` is the error.
    pub open spec fn gave_up_at(self, pre: Coordinator, gtid: u64, p: int, r: Result<(), XaError>) -> bool {
        &&& self.asked_all(pre, gtid, commit_steps().take(p + 1).push(Operation::Rollback))
        &&& forall|j: int| 0 <= j < p ==> (#[trigger] self.failed(pre, j)).len() == 0
        &&& self.failed(pre, p).len() > 0
        &&& self == pre.with(self, Status::Idle, None)
        &&& reports_rollback_after(
            r,
            commit_step_name(p),
            self.failed(pre, p),
            self.failed(pre, p + 1),
        )
    }

    /// What `commit_transaction` does: `post` is the state after the call on
    /// the state `pre`, and `r` is what the call returns.
    ///
    /// Without a current transaction, or in another state than `Active`, the
    /// call is an error that changes nothing. With fewer than two resource
    /// managers the one step is a one-phase commit: where it fails, `r` holds
    /// the failure, and nothing is rolled back. With two or more the steps
    /// are those of `commit_steps`, each taken with all resource managers;
    /// the first step at which one fails is the last, see `gave_up_at`.
    pub open spec fn after_commit(pre: Coordinator, post: Coordinator, r: Result<(), XaError>) -> bool {
        match pre.current_gtid {
            None => {
                &&& post == pre
                &&& r == Err::<(), XaError>(XaError::Usage("No current transaction set"))
            },
            Some(gtid) => {
                if pre.status != Status::Active {
                    &&& post == pre
                    &&& r matches Err(XaError::UsageDetails(m)) && m@ == state_message(
                        pre.status,
                        seq![Status::Active],
                    )
                } else if pre.participants.len() < 2 {
                    &&& post.asked_all(pre, gtid, seq![Operation::CommitOnePhase])
                    &&& reports(r, post.failed(pre, 0))
                    &&& r is Ok ==> post == pre.with(post, Status::Committed, None)
                    &&& r is Err ==> post == pre.with(post, Status::Committing, pre.current_gtid)
                } else {
                    ||| {
                        &&& post.asked_all(pre, gtid, commit_steps())
                        &&& post.failed(pre, 0).len() == 0
                        &&& post.failed(pre, 1).len() == 0
                        &&& post.failed(pre, 2).len() == 0
                        &&& post == pre.with(post, Status::Committed, None)
                        &&& r is Ok
                    }
                    ||| post.gave_up_at(pre, gtid, 0, r)
                    ||| post.gave_up_at(pre, gtid, 1, r)
                    ||| post.gave_up_at(pre, gtid, 2, r)
                }
            },
        }
    }

    /// What `rollback_transaction` does: `post` is the state after the call
    /// on the state `pre`, and `r` is what the call returns.
    ///
    /// Without a current transaction the call is an error that changes
    /// nothing. Otherwise the transaction manager ends in `RolledBack`,
    /// without a current transaction. From `Active` all resource managers are
    /// asked to end their work as failed, and then all to roll back; from
    /// `Prepared` and `RollbackOnly` all are asked to roll back; from any
    /// other state none is asked anything. `r` reports every failure, of a
    /// resource manager that could not end its work and of one that could not
    /// roll back: those of the first step before those of the second.
    pub open spec fn after_rollback(pre: Coordinator, post: Coordinator, r: Result<(), XaError>) -> bool {
        match pre.current_gtid {
            None => {
                &&& post == pre
                &&& r == Err::<(), XaError>(XaError::Usage("No current transaction set"))
            },
            Some(gtid) => {
                &&& post == pre.with(post, Status::RolledBack, None)
                &&& match pre.status {
                    Status::Active => {
                        &&& post.asked_all(
                            pre,
                            gtid,
                            seq![Operation::EndFailure, Operation::Rollback],
                        )
                        &&& reports(r, post.failed(pre, 0) + post.failed(pre, 1))
                    },
                    Status::Prepared | Status::RollbackOnly => {
                        &&& post.asked_all(pre, gtid, seq![Operation::Rollback])
                        &&& reports(r, post.failed(pre, 0))
                    },
                    _ => {
                        &&& post.participants == pre.participants
                        &&& post.record == pre.record
                        &&& r is Ok
                    },
                }
            },
        }
    }

    /// What `set_transaction_rollbackonly` does: in the states of
    /// `rollback_only_states` the state becomes `RollbackOnly` and nothing
    /// else changes; in the others the call is an error that changes nothing.
    pub open spec fn after_rollback_only(pre: Coordinator, post: Coordinator, r: Result<(), XaError>) -> bool {
        if rollback_only_states().contains(pre.status) {
            &&& post == (Coordinator { status: Status::RollbackOnly, ..pre })
            &&& r is Ok
        } else {
            &&& post == pre
            &&& r matches Err(XaError::UsageDetails(m)) && m@ == state_message(
                pre.status,
                rollback_only_states(),
            )
        }
    }

    /// What `register` does: `post` is the state after the call on the state
    /// `pre` with a resource manager whose history was `joined`, and `r` is
    /// what the call returns.
    ///
    /// An id that is in use is an error that changes nothing: the resource
    /// manager that has the id stays. Otherwise the new resource manager is
    /// the last of the registered ones, after the exchanges of `cleaned_up`.
    pub open spec fn after_register(
        pre: Coordinator,
        post: Coordinator,
        joined: Seq<Exchange>,
        rm_id: u64,
        cleanup: bool,
        r: Result<(), XaError>,
    ) -> bool {
        if pre.has(rm_id) {
            &&& post == pre
            &&& r == Err::<(), XaError>(
                XaError::Usage("cannot register with given rm_id, which is already in use"),
            )
        } else {
            &&& r is Ok
            &&& post.participants.len() == pre.participants.len() + 1
            &&& post == (Coordinator {
                participants: pre.participants.push(post.participants.last()),
                ..pre
            })
            &&& post.participants.last().rm_id == rm_id
            &&& cleaned_up(joined, post.participants.last().history, pre.identity, rm_id, cleanup)
        }
    }

    /// What `unregister` does: the resource manager with the id `rm_id` is
    /// no longer registered, if it was; nothing else changes.
    pub open spec fn after_unregister(
        pre: Coordinator,
        post: Coordinator,
        rm_id: u64,
        r: Result<(), XaError>,
    ) -> bool {
        &&& r is Ok
        &&& post == (Coordinator { participants: without(pre.participants, rm_id), ..pre })
        &&& !post.has(rm_id)
    }

    /// What a transaction manager does when it goes away: where a global
    /// transaction is unfinished, all resource managers are asked to roll
    /// back their branch of the current transaction (of the transaction 0
    /// where none is current), and their answers are not looked at. Nothing
    /// else changes.
    pub open spec fn after_teardown(pre: Coordinator, post: Coordinator) -> bool {
        if pre.status.is_unfinished() {
            &&& post == pre.with(post, pre.status, pre.current_gtid)
            &&& post.asked_all(
                pre,
                match pre.current_gtid {
                    Some(gtid) => gtid,
                    None => 0,
                },
                seq![Operation::Rollback],
            )
        } else {
            post == pre
        }
    }
}

/// Where the first `n` resource managers had the same exchanges, they had
/// the same failures.
pub proof fn lemma_failures_of_same_exchanges(
    pre: Seq<Participant>,
    post: Seq<Participant>,
    j: int,
    pre2: Seq<Participant>,
    post2: Seq<Participant>,
    j2: int,
    n: nat,
)
    requires
        forall|k: int| 0 <= k < n ==> post[k].added(pre[k], j) == post2[k].added(pre2[k], j2),
    ensures
        failures(pre, post, j, n) == failures(pre2, post2, j2, n),
    decreases n,
{
    if n > 0 {
        lemma_failures_of_same_exchanges(pre, post, j, pre2, post2, j2, (n - 1) as nat);
    }
}

/// Steps add up: where `mid` is `pre` after the steps `ops` and `post` is
/// `mid` after the step `op`, `post` is `pre` after the steps `ops` and
/// then `op`, with the failures of each step as they were.
pub proof fn lemma_one_more_step(
    pre: Coordinator,
    mid: Coordinator,
    post: Coordinator,
    gtid: u64,
    ops: Seq<Operation>,
    op: Operation,
)
    requires
        mid.asked_all(pre, gtid, ops),
        post.asked_all(mid, gtid, seq![op]),
        mid.identity == pre.identity,
    ensures
        post.asked_all(pre, gtid, ops.push(op)),
        forall|j: int| 0 <= j < ops.len() ==> #[trigger] post.failed(pre, j) == mid.failed(pre, j),
        post.failed(pre, ops.len() as int) == post.failed(mid, 0),
{
    let n = pre.participants.len();
    assert(post.record == pre.record + steps_requests(pre.participants, ops.push(op))) by {
        assert forall|k: int| 0 <= k < n implies mid.participants[k].rm_id
            == pre.participants[k].rm_id by {
            assert(mid.participants[k].asked(pre.participants[k], pre.identity, gtid, ops));
        }
        assert(step_requests(mid.participants, op) =~= step_requests(pre.participants, op));
        lemma_one_step(mid.participants, op);
        assert(ops.push(op).drop_last() =~= ops);
        assert(post.record =~= pre.record + (steps_requests(pre.participants, ops)
            + step_requests(pre.participants, op)));
    }
    assert forall|k: int| 0 <= k < n implies (#[trigger] post.participants[k]).asked(
        pre.participants[k],
        pre.identity,
        gtid,
        ops.push(op),
    ) && post.participants[k].added(pre.participants[k], ops.len() as int)
        == post.participants[k].added(mid.participants[k], 0) && (forall|j: int|
        0 <= j < ops.len() ==> #[trigger] post.participants[k].added(pre.participants[k], j)
            == mid.participants[k].added(pre.participants[k], j)) by {
        let a = pre.participants[k];
        let b = mid.participants[k];
        let c = post.participants[k];
        assert(c.history.take(a.history.len() as int) =~= b.history.take(a.history.len() as int));
        assert forall|j: int| 0 <= j < ops.push(op).len() implies (#[trigger] c.added(a, j)).asks(
            ops.push(op)[j],
            branch_xid(gtid, pre.identity, a.rm_id),
        ) by {
            if j < ops.len() {
                assert(b.added(a, j).asks(ops[j], branch_xid(gtid, pre.identity, a.rm_id)));
            }
        }
    }
    assert forall|j: int| 0 <= j < ops.len() implies #[trigger] post.failed(pre, j) == mid.failed(
        pre,
        j,
    ) by {
        lemma_failures_of_same_exchanges(
            pre.participants,
            post.participants,
            j,
            pre.participants,
            mid.participants,
            j,
            n,
        );
    }
    lemma_failures_of_same_exchanges(
        pre.participants,
        post.participants,
        ops.len() as int,
        mid.participants,
        post.participants,
        0,
        n,
    );
}

/// The steps come one after the other: among the requests of the steps
/// `ops`, the request of the step number `j` to the resource manager number
/// `k` stands at the place `j * n + k`, where `n` is the number of resource
/// managers. So every request of a step stands before every request of the
/// next step, and within a step the resource managers are asked in the order
/// of their registration.
pub proof fn lemma_steps_in_order(participants: Seq<Participant>, ops: Seq<Operation>, j: int, k: int)
    requires
        0 <= j < ops.len(),
        0 <= k < participants.len(),
    ensures
        steps_requests(participants, ops).len() == ops.len() * participants.len(),
        0 <= j * participants.len() + k < steps_requests(participants, ops).len(),
        steps_requests(participants, ops)[j * participants.len() + k] == (Request {
            rm_id: participants[k].rm_id,
            op: ops[j],
        }),
    decreases ops.len(),
{
    let n = participants.len() as int;
    let m = ops.len() as int - 1;
    let before = steps_requests(participants, ops.drop_last());
    lemma_steps_len(participants, ops);
    lemma_steps_len(participants, ops.drop_last());
    assert(before.len() == m * n);
    assert((m + 1) * n == m * n + n) by (nonlinear_arith);
    if j < m {
        lemma_steps_in_order(participants, ops.drop_last(), j, k);
        assert(j * n + k < m * n) by (nonlinear_arith)
            requires
                0 <= j < m,
                0 <= k < n,
        ;
    } else {
        assert(j * n + k == m * n + k);
        assert(0 <= m * n) by (nonlinear_arith)
            requires
                0 <= m,
                0 <= n,
        ;
    }
}

/// The requests of one step are the requests of the steps that this step
/// alone makes up.
pub proof fn lemma_one_step(participants: Seq<Participant>, op: Operation)
    ensures
        steps_requests(participants, seq![op]) == step_requests(participants, op),
{
    reveal_with_fuel(steps_requests, 2);
    assert(seq![op].drop_last() =~= Seq::<Operation>::empty());
    assert(steps_requests(participants, seq![op]) =~= step_requests(participants, op));
}

/// The steps `ops` make as many requests as there are steps times resource
/// managers.
pub proof fn lemma_steps_len(participants: Seq<Participant>, ops: Seq<Operation>)
    ensures
        steps_requests(participants, ops).len() == ops.len() * participants.len(),
    decreases ops.len(),
{
    let n = participants.len() as int;
    if ops.len() > 0 {
        let m = ops.len() as int - 1;
        lemma_steps_len(participants, ops.drop_last());
        assert((m + 1) * n == m * n + n) by (nonlinear_arith);
    } else {
        assert(0 * n == 0) by (nonlinear_arith);
    }
}

} // verus!
