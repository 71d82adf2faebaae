//! A transaction manager that drives its resource managers through a
//! two-phase commit.

use crate::le::{read_u64_le, write_u64_le};
use crate::rm::resource_manager::{perform, Operation, ResourceManager};
use crate::rm_error::RmError;
use crate::tm::coordinator::{Coordinator, Participant, Request, FORMAT_ID};
use crate::tm::status::Status;
use crate::tm::transaction_manager::TransactionManager;
use crate::xa_error::XaError;
use crate::xa_transaction_id::XaTransactionId;
use std::collections::hash_map::DefaultHasher;
use std::hash::{Hash, Hasher};
use vstd::prelude::*;
use vstd::slice::slice_subrange;
use vstd::std_specs::hash::DefaultHasherAdditionalSpecFns;
use vstd::string::StringExecFns;

verus! {

/// `SimpleTransactionManager`
///
/// * identifies itself with a `u64` (hash of its name)
/// * identifies the resource managers with a `u64` given during the registration
/// * enumerates its global transactions with a `u64` counter: the first has the
///   number 1, and no number is used twice
///
/// uses `XaTransactionId` with
///
/// * `format_id` = 99
/// * `global_tid`: the number of the global transaction
/// * `branch_qualifier`: `tm_id`: u64, `rm_id`: u64
///
/// A minimal implementation of the `TransactionManager` interface.
///
/// Is identified with an application-defined String, whose hash is used as
/// `tm_id`.
///
/// The resource managers are asked in the order of their registration. All
/// of them have the type `R`; with `Box<dyn ResourceManager>` for `R` they can
/// be of different kinds.
///
/// At all times no two resource managers have the same id, and a global
/// transaction is current only while one is under way: see
/// [`Coordinator::wf`].
///
/// No support is provided for multi-threading à la XA.
pub struct SimpleTransactionManager<R: ResourceManager> {
    name: String,
    id: u64,
    rms: Vec<(u64, R)>,
    record: Ghost<Seq<Request>>,
    last_gtid: u64,
    current_gtid: Option<u64>,
    status: Status,
}

/// The registered resource managers as the contracts speak of them.
pub open spec fn participants_of<R: ResourceManager>(rms: Seq<(u64, R)>) -> Seq<Participant> {
    Seq::new(rms.len(), |k: int| Participant { rm_id: rms[k].0, history: rms[k].1.history() })
}

/// What hashing the string `name` writes into a hasher into which `written`
/// was written before: all that was written, the oldest piece first.
pub uninterp spec fn name_written(written: Seq<Seq<u8>>, name: Seq<char>) -> Seq<Seq<u8>>;

/// The hash of the name `name`.
pub open spec fn name_hash(name: Seq<char>) -> u64 {
    DefaultHasher::spec_finish(name_written(Seq::empty(), name))
}

/// The identity of the transaction manager whose name has the hash `hash`:
/// the hash without its lowest byte.
pub open spec fn identity_of(hash: u64) -> u64 {
    hash & 0xffff_ffff_ffff_ff00
}

/// The identity of the transaction manager whose name has the hash `hash`.
pub fn identity_from_hash(hash: u64) -> (id: u64)
    ensures
        id == identity_of(hash),
        id & 0xff == 0,
{
    let id = hash & (u64::MAX - 0b_1111_1111_u64);
    assert(hash & 0xffff_ffff_ffff_ff00 & 0xff == 0) by (bit_vector);
    id
}

/// Calls `Hash::hash` of `str` with a `DefaultHasher`. Claimed, not proved:
/// what the hasher has been given afterwards depends on nothing but what it
/// had been given before and the characters of `name`.
#[verifier::external_body]
fn hash_name(name: &str, state: &mut DefaultHasher)
    ensures
        final(state)@ == name_written(old(state)@, name@),
{
    name.hash(state);
}

/// Makes the id of the branch that the resource manager `rm_id` works on for
/// the global transaction `global_tid` of the transaction manager `tm_id`.
pub fn new_xatid(global_tid: u64, tm_id: u64, rm_id: u64) -> (id: XaTransactionId)
    ensures
        id@ == crate::tm::coordinator::branch_xid(global_tid, tm_id, rm_id),
{
    let v_gt = write_u64_le(global_tid);
    let mut v_bq = write_u64_le(tm_id);
    let mut v_rm = write_u64_le(rm_id);
    v_bq.append(&mut v_rm);
    let r = XaTransactionId::try_new(FORMAT_ID, v_gt, v_bq);
    r.unwrap()
}

impl<R: ResourceManager> View for SimpleTransactionManager<R> {
    type V = Coordinator;

    closed spec fn view(&self) -> Coordinator {
        Coordinator {
            name: self.name@,
            identity: self.id,
            participants: participants_of(self.rms@),
            record: self.record@,
            last_gtid: self.last_gtid,
            current_gtid: self.current_gtid,
            status: self.status,
        }
    }
}

impl<R: ResourceManager> SimpleTransactionManager<R> {
    #[verifier::type_invariant]
    spec fn well_formed(&self) -> bool {
        self@.wf()
    }

    /// Produces a new instance: without resource managers, idle, and before
    /// its first global transaction.
    #[must_use]
    pub fn new(name: &str) -> (tm: SimpleTransactionManager<R>)
        ensures
            tm@ == (Coordinator {
                name: name@,
                identity: identity_of(name_hash(name@)),
                participants: Seq::empty(),
                record: Seq::empty(),
                last_gtid: 0,
                current_gtid: None,
                status: Status::Idle,
            }),
            tm@.wf(),
    {
        let mut s = DefaultHasher::new();
        hash_name(name, &mut s);
        let id = identity_from_hash(s.finish());
        let rms: Vec<(u64, R)> = Vec::new();
        assert(participants_of(rms@) =~= Seq::empty());
        SimpleTransactionManager {
            name: name.to_owned(),
            id,
            rms,
            record: Ghost(Seq::empty()),
            last_gtid: 0,
            current_gtid: None,
            status: Status::Idle,
        }
    }

    /// Returns the global transaction id that is currently used
    /// by this `SimpleTransactionManager`.
    pub fn get_gtid(&mut self) -> (gtid: Option<u64>)
        ensures
            gtid == old(self)@.current_gtid,
            final(self)@ == old(self)@,
            final(self)@.wf(),
    {
        proof {
            use_type_invariant(&*self);
        }
        self.current_gtid
    }

    /// Takes the next number for a global transaction.
    fn next_global_tid(&mut self) -> (gtid: u64)
        requires
            old(self)@.last_gtid < u64::MAX,
            old(self)@.current_gtid is None,
        ensures
            gtid == old(self)@.last_gtid + 1,
            final(self)@ == (Coordinator { last_gtid: gtid, ..old(self)@ }),
    {
        proof {
            use_type_invariant(&*self);
        }
        self.last_gtid = self.last_gtid + 1;
        self.last_gtid
    }

    /// The number of the current global transaction, or the error for a
    /// request that needs one where there is none.
    fn get_current_gtid(&mut self) -> (r: Result<u64, XaError>)
        ensures
            final(self)@ == old(self)@,
            match old(self)@.current_gtid {
                None => r == Err::<u64, XaError>(XaError::Usage("No current transaction set")),
                Some(gtid) => r == Ok::<u64, XaError>(gtid),
            },
    {
        match self.current_gtid {
            None => Err(XaError::Usage("No current transaction set")),
            Some(u) => Ok(u),
        }
    }

    /// Goes over to the state `new` if the state is one of `required`, and
    /// otherwise says in an error which state it is and which are required.
    fn validate_and_set_status(&mut self, required: &[Status], new: Status) -> (r: Result<
        (),
        XaError,
    >)
        requires
            !new.is_at_rest(),
        ensures
            required@.contains(old(self)@.status) ==> r is Ok && final(self)@ == (Coordinator {
                status: new,
                ..old(self)@
            }),
            !required@.contains(old(self)@.status) ==> final(self)@ == old(self)@ && (r matches Err(
                XaError::UsageDetails(m),
            ) && m@ == crate::tm::coordinator::state_message(old(self)@.status, required@)),
    {
        proof {
            use_type_invariant(&*self);
        }
        if self.status.is_one_of(required) {
            proof {
                use_type_invariant(&*self);
            }
            self.status = new;
            Ok(())
        } else {
            let mut message = String::from_str("SimpleTransactionManager is in state ");
            message.append(self.status.as_str());
            message.append(", but state ");
            message.append(Status::join_names(required).as_str());
            message.append(" is required");
            Err(XaError::UsageDetails(message))
        }
    }

    /// Reports the name of this instance.
    #[must_use]
    pub fn name(&self) -> (name: &str)
        ensures
            name@ == self@.name,
            self@.wf(),
    {
        proof {
            use_type_invariant(self);
        }
        self.name.as_str()
    }
}

impl<R: ResourceManager> SimpleTransactionManager<R> {
    /// One step: asks every resource manager `op` for its branch of the
    /// global transaction `global_tid`, whether or not another has failed
    /// before, and collects the errors.
    fn rm_action(&mut self, op: Operation, global_tid: u64) -> (r: Result<(), XaError>)
        ensures
            final(self)@.stepped(old(self)@, op, global_tid, r),
    {
        proof {
            use_type_invariant(&*self);
        }
        // The resource managers are out of the registry while they are asked.
        let mut rms: Vec<(u64, R)> = Vec::new();
        let mut record = Ghost(self.record@);
        proof {
            assert(participants_of(rms@) =~= Seq::empty());
        }
        core::mem::swap(&mut self.rms, &mut rms);
        let errors = fan_out(&mut rms, &mut record, op, global_tid, self.id);
        proof {
            let pre = old(self)@.participants;
            let post = participants_of(rms@);
            assert forall|i: int, j: int| 0 <= i < j < post.len() implies post[i].rm_id
                != post[j].rm_id by {
                assert(post[i].asked(pre[i], self.id, global_tid, seq![op]));
                assert(post[j].asked(pre[j], self.id, global_tid, seq![op]));
            }
            crate::tm::coordinator::lemma_one_step(pre, op);
        }
        core::mem::swap(&mut self.rms, &mut rms);
        self.record = record;
        if errors.is_empty() {
            Ok(())
        } else {
            Err(XaError::RmErrors(errors))
        }
    }

    /// After the step `method` of a commit has failed: asks every resource
    /// manager to roll back, and leaves the transaction manager idle. A
    /// rollback that fails too is an inconsistency.
    fn try_rollback_after(&mut self, current_gtid: u64, method: &'static str) -> (r: Result<
        (),
        XaError,
    >)
        ensures
            final(self)@ == old(self)@.with(final(self)@, Status::Idle, None),
            final(self)@.asked_all(old(self)@, current_gtid, seq![Operation::Rollback]),
            match r {
                Ok(_) => final(self)@.failed(old(self)@, 0).len() == 0,
                Err(XaError::Inconsistency(m, v)) => {
                    &&& final(self)@.failed(old(self)@, 0).len() > 0
                    &&& m@ == crate::tm::coordinator::inconsistency_message(method@)
                    &&& v@ == final(self)@.failed(old(self)@, 0)
                },
                Err(_) => false,
            },
    {
        proof {
            use_type_invariant(&*self);
            assert((Coordinator { status: Status::RollingBack, ..self@ }).wf());
        }
        self.status = Status::RollingBack;
        let result = self.rm_rollback(current_gtid);
        proof {
            use_type_invariant(&*self);
        }
        self.current_gtid = None;
        self.status = Status::Idle;
        match result {
            Err(e) => {
                if let XaError::RmErrors(v) = e {
                    let mut message = String::from_str("rm_rollback() failed after a failed ");
                    message.append(method);
                    message.append("()");
                    Err(XaError::Inconsistency(message, v))
                } else {
                    Err(e)
                }
            },
            Ok(()) => Ok(()),
        }
    }

    /// Whether `xid` names a branch of the resource manager `rm_id` in a
    /// global transaction of this transaction manager.
    fn is_my_xid_and_rm(&self, xid: &XaTransactionId, rm_id: u64) -> (mine: bool)
        ensures
            mine == crate::tm::coordinator::stamped(xid@, self@.identity, rm_id),
    {
        if xid.get_format_id() != FORMAT_ID {
            return false;
        }
        let bq = xid.get_branch_qualifier();
        if bq.len() != 16 {
            proof {
                crate::le::lemma_le_u64_value_of_bytes(self.id);
                crate::le::lemma_le_u64_value_of_bytes(rm_id);
            }
            return false;
        }
        let tm_part = slice_subrange(bq.as_slice(), 0, 8);
        let rm_part = slice_subrange(bq.as_slice(), 8, 16);
        let tm_id = read_u64_le(tm_part);
        let found_rm_id = read_u64_le(rm_part);
        proof {
            crate::le::lemma_le_u64_value_of_bytes(self.id);
            crate::le::lemma_le_u64_value_of_bytes(rm_id);
            crate::le::lemma_le_u64_bytes_of_value(tm_part@);
            crate::le::lemma_le_u64_bytes_of_value(rm_part@);
            assert(bq@ =~= tm_part@ + rm_part@);
        }
        if tm_id != self.id {
            return false;
        }
        found_rm_id == rm_id
    }

    /// The place of the resource manager with the id `rm_id`, if one is
    /// registered.
    fn position(&self, rm_id: u64) -> (at: Option<usize>)
        ensures
            match at {
                Some(k) => crate::tm::coordinator::is_first_with(
                    self@.participants,
                    rm_id,
                    k as int,
                ),
                None => !self@.has(rm_id),
            },
    {
        let mut i: usize = 0;
        while i < self.rms.len()
            invariant
                i <= self.rms@.len(),
                forall|k: int| 0 <= k < i ==> (#[trigger] self@.participants[k]).rm_id != rm_id,
            decreases self.rms@.len() - i,
        {
            if self.rms[i].0 == rm_id {
                return Some(i);
            }
            i = i + 1;
        }
        None
    }

    /// What is left to do when the transaction manager goes away: where a
    /// global transaction is unfinished, every resource manager is asked to
    /// roll back its branch. This is a last resort, and the answers are not
    /// looked at.
    pub fn rollback_unfinished(&mut self)
        ensures
            Coordinator::after_teardown(old(self)@, final(self)@),
            final(self)@.wf(),
    {
        proof {
            use_type_invariant(&*self);
        }
        let unfinished = [
            Status::Activating,
            Status::Active,
            Status::Preparing,
            Status::Prepared,
            Status::RollbackOnly,
            Status::RollingBack,
        ];
        if self.status.is_one_of(unfinished.as_slice()) {
            let gtid = match self.current_gtid {
                Some(gtid) => gtid,
                None => 0,
            };
            let _ = self.rm_rollback(gtid);
        }
    }

    /// Asks every resource manager to start its branch.
    fn rm_start(&mut self, global_tid: u64) -> (r: Result<(), XaError>)
        ensures
            final(self)@.stepped(old(self)@, Operation::Start, global_tid, r),
    {
        self.rm_action(Operation::Start, global_tid)
    }

    /// Asks every resource manager to end the work on its branch, which was done successfully.
    fn rm_end_success(&mut self, global_tid: u64) -> (r: Result<(), XaError>)
        ensures
            final(self)@.stepped(old(self)@, Operation::EndSuccess, global_tid, r),
    {
        self.rm_action(Operation::EndSuccess, global_tid)
    }

    /// Asks every resource manager to end the work on its branch, which has failed.
    fn rm_end_failure(&mut self, global_tid: u64) -> (r: Result<(), XaError>)
        ensures
            final(self)@.stepped(old(self)@, Operation::EndFailure, global_tid, r),
    {
        self.rm_action(Operation::EndFailure, global_tid)
    }

    /// Asks every resource manager to prepare its branch.
    fn rm_prepare(&mut self, global_tid: u64) -> (r: Result<(), XaError>)
        ensures
            final(self)@.stepped(old(self)@, Operation::Prepare, global_tid, r),
    {
        self.rm_action(Operation::Prepare, global_tid)
    }

    /// Asks every resource manager to commit its prepared branch.
    fn rm_commit(&mut self, global_tid: u64) -> (r: Result<(), XaError>)
        ensures
            final(self)@.stepped(old(self)@, Operation::Commit, global_tid, r),
    {
        self.rm_action(Operation::Commit, global_tid)
    }

    /// Asks every resource manager to commit its branch, which is not prepared.
    fn rm_commit_one_phase(&mut self, global_tid: u64) -> (r: Result<(), XaError>)
        ensures
            final(self)@.stepped(old(self)@, Operation::CommitOnePhase, global_tid, r),
    {
        self.rm_action(Operation::CommitOnePhase, global_tid)
    }

    /// Asks every resource manager to roll back its branch.
    fn rm_rollback(&mut self, global_tid: u64) -> (r: Result<(), XaError>)
        ensures
            final(self)@.stepped(old(self)@, Operation::Rollback, global_tid, r),
    {
        self.rm_action(Operation::Rollback, global_tid)
    }
}

/// One step with the resource managers `rms` of the transaction manager
/// `tm_id`: asks each of them `op` for its branch of the global transaction
/// `global_tid`, in their order and whether or not another has failed before.
/// Every request is written to `record` when it is made. The result holds
/// the errors of those that failed.
fn fan_out<R: ResourceManager>(
    rms: &mut Vec<(u64, R)>,
    record: &mut Ghost<Seq<Request>>,
    op: Operation,
    global_tid: u64,
    tm_id: u64,
) -> (errors: Vec<RmError>)
    ensures
        participants_of(final(rms)@).len() == participants_of(old(rms)@).len(),
        forall|k: int|
            0 <= k < participants_of(old(rms)@).len() ==> (#[trigger] participants_of(
                final(rms)@,
            )[k]).asked(participants_of(old(rms)@)[k], tm_id, global_tid, seq![op]),
        final(record)@ == old(record)@ + crate::tm::coordinator::step_requests(
            participants_of(old(rms)@),
            op,
        ),
        errors@ == crate::tm::coordinator::failures(
            participants_of(old(rms)@),
            participants_of(final(rms)@),
            0,
            participants_of(old(rms)@).len(),
        ),
{
    let mut errors = Vec::<RmError>::new();
    let mut i: usize = 0;
    let ghost pre = participants_of(old(rms)@);
    proof {
        assert(record@ =~= old(record)@ + crate::tm::coordinator::step_requests(pre, op).take(
            0,
        ));
    }
    while i < rms.len()
        invariant
            i <= rms@.len(),
            rms@.len() == old(rms)@.len(),
            pre == participants_of(old(rms)@),
            forall|k: int| 0 <= k < rms@.len() ==> (#[trigger] rms@[k]).0 == old(rms)@[k].0,
            forall|k: int|
                0 <= k < i ==> (#[trigger] participants_of(rms@)[k]).asked(
                    pre[k],
                    tm_id,
                    global_tid,
                    seq![op],
                ),
            forall|k: int|
                i <= k < rms@.len() ==> (#[trigger] rms@[k]).1.history() == old(
                    rms,
                )@[k].1.history(),
            record@ == old(record)@ + crate::tm::coordinator::step_requests(pre, op).take(
                i as int,
            ),
            errors@ == crate::tm::coordinator::failures(pre, participants_of(rms@), 0, i as nat),
        decreases rms@.len() - i,
    {
        let xatid = new_xatid(global_tid, tm_id, rms[i].0);
        let ghost before = participants_of(rms@);
        let r = perform(&mut rms[i].1, op, &xatid);
        proof {
            *record = Ghost(record@.push(Request { rm_id: rms@[i as int].0, op }));
            let now = participants_of(rms@);
            let requests = crate::tm::coordinator::step_requests(pre, op);
            assert(requests.take(i + 1) =~= requests.take(i as int).push(
                Request { rm_id: rms@[i as int].0, op },
            ));
            crate::tm::coordinator::lemma_failures_of_same_exchanges(
                pre,
                now,
                0,
                pre,
                before,
                0,
                i as nat,
            );
            let h = pre[i as int].history;
            assert(now[i as int].history.take(h.len() as int) =~= h);
            assert forall|k: int| 0 <= k < i + 1 implies (#[trigger] now[k]).asked(
                pre[k],
                tm_id,
                global_tid,
                seq![op],
            ) by {
                if k < i {
                    assert(now[k] == before[k]);
                }
            }
        }
        if let Err(e) = r {
            errors.push(e);
        }
        i = i + 1;
    }
    proof {
        let requests = crate::tm::coordinator::step_requests(pre, op);
        assert(requests.take(i as int) =~= requests);
    }
    errors
}

impl<R: ResourceManager> TransactionManager for SimpleTransactionManager<R> {
    type Rm = R;

    /// Registers `rm` under `rm_id`, unless the id is in use. With `cleanup`
    /// the resource manager is first asked to forget the branches that it
    /// still holds from an earlier transaction manager of the same name.
    fn register(&mut self, rm: R, rm_id: u64, cleanup: bool) -> (r: Result<(), XaError>)
        ensures
            Coordinator::after_register(old(self)@, final(self)@, rm.history(), rm_id, cleanup, r),
            final(self)@.wf(),
    {
        proof {
            use_type_invariant(&*self);
        }
        if self.position(rm_id).is_some() {
            return Err(XaError::Usage("cannot register with given rm_id, which is already in use"));
        }
        let mut rm = rm;
        let ghost joined = rm.history();
        if cleanup {
            let recovered = rm.recover();
            let ghost scanned = rm.history();
            let found = match recovered {
                Ok(found) => found,
                Err(_) => Vec::new(),
            };
            let ghost ids = crate::xa_transaction_id::xids(found@);
            let mut i: usize = 0;
            while i < found.len()
                invariant
                    i <= found@.len(),
                    ids == crate::xa_transaction_id::xids(found@),
                    *self == *old(self),
                    rm.history().len() == scanned.len() + crate::tm::coordinator::stamped_among(
                        ids.take(i as int),
                        self@.identity,
                        rm_id,
                    ).len(),
                    rm.history().take(scanned.len() as int) == scanned,
                    forall|j: int|
                        0 <= j < rm.history().len() - scanned.len() ==> (#[trigger] rm.history().skip(
                            scanned.len() as int,
                        )[j]).asks(
                            Operation::Forget,
                            crate::tm::coordinator::stamped_among(
                                ids.take(i as int),
                                self@.identity,
                                rm_id,
                            )[j],
                        ),
                decreases found@.len() - i,
            {
                let ghost before = rm.history();
                let ghost mine = crate::tm::coordinator::stamped_among(
                    ids.take(i as int),
                    self@.identity,
                    rm_id,
                );
                proof {
                    assert(ids.take(i + 1).drop_last() =~= ids.take(i as int));
                }
                if self.is_my_xid_and_rm(&found[i], rm_id) {
                    let _ = rm.forget(&found[i]);
                    proof {
                        let now = rm.history();
                        assert forall|j: int| 0 <= j < now.len() - scanned.len() implies (
                        #[trigger] now.skip(scanned.len() as int)[j]).asks(
                            Operation::Forget,
                            mine.push(found@[i as int]@)[j],
                        ) by {
                            if j < mine.len() {
                                assert(now.skip(scanned.len() as int)[j] == before.skip(
                                    scanned.len() as int,
                                )[j]);
                            }
                        }
                    }
                }
                i = i + 1;
            }
            proof {
                assert(ids.take(found@.len() as int) =~= ids);
                let after = rm.history();
                assert(after.take(joined.len() as int) =~= scanned.take(joined.len() as int));
                assert(scanned.take(joined.len() as int) =~= joined);
                assert(after[joined.len() as int] == after.take(scanned.len() as int)[joined.len() as int]);
            }
        }
        // The registry is taken out, grows, and is put back.
        let mut rms: Vec<(u64, R)> = Vec::new();
        proof {
            use_type_invariant(&*self);
            assert(participants_of(rms@) =~= Seq::empty());
        }
        core::mem::swap(&mut self.rms, &mut rms);
        rms.push((rm_id, rm));
        proof {
            let pre = old(self)@.participants;
            let post = participants_of(rms@);
            assert(post =~= pre.push(post.last()));
            assert forall|i: int, j: int| 0 <= i < j < post.len() implies post[i].rm_id
                != post[j].rm_id by {
                assert(post[i] == pre[i]);
                if j < pre.len() {
                    assert(post[j] == pre[j]);
                }
            }
        }
        core::mem::swap(&mut self.rms, &mut rms);
        Ok(())
    }

    /// Takes the resource manager with the id `rm_id` out of the registry, if
    /// there is one.
    fn unregister(&mut self, rm_id: u64) -> (r: Result<(), XaError>)
        ensures
            Coordinator::after_unregister(old(self)@, final(self)@, rm_id, r),
            final(self)@.wf(),
    {
        match self.position(rm_id) {
            Some(k) => {
                // The registry is taken out, shrinks, and is put back.
                let mut rms: Vec<(u64, R)> = Vec::new();
                proof {
                    use_type_invariant(&*self);
                    assert(participants_of(rms@) =~= Seq::empty());
                }
                core::mem::swap(&mut self.rms, &mut rms);
                let _ = rms.remove(k);
                proof {
                    let pre = old(self)@.participants;
                    let post = participants_of(rms@);
                    assert(post =~= pre.remove(k as int));
                    assert forall|i: int| 0 <= i < post.len() implies post[i].rm_id != rm_id by {
                        if i < k {
                            assert(post[i] == pre[i]);
                        } else {
                            assert(post[i] == pre[i + 1]);
                        }
                    }
                    assert forall|i: int, j: int| 0 <= i < j < post.len() implies post[i].rm_id
                        != post[j].rm_id by {
                        assert(post[i] == pre[if i < k { i } else { i + 1 }]);
                        assert(post[j] == pre[if j < k { j } else { j + 1 }]);
                    }
                }
                core::mem::swap(&mut self.rms, &mut rms);
            },
            None => {
                proof {
                    use_type_invariant(&*self);
                }
            },
        }
        Ok(())
    }

    /// Creates a new global transaction and tells all resource managers to
    /// start working for a respective branch.
    fn start_transaction(&mut self) -> (r: Result<(), XaError>)
        ensures
            Coordinator::after_start(old(self)@, final(self)@, r),
            final(self)@.wf(),
    {
        proof {
            use_type_invariant(&*self);
        }
        let required = [Status::Idle, Status::Committed, Status::RolledBack];
        if self.status.is_one_of(required.as_slice()) && self.last_gtid == u64::MAX {
            return Err(XaError::Usage("No global transaction id is left"));
        }
        match self.validate_and_set_status(required.as_slice(), Status::Activating) {
            Ok(()) => {},
            Err(e) => {
                return Err(e);
            },
        }
        let global_tid = self.next_global_tid();
        let ghost begun = self@;

        match self.rm_start(global_tid) {
            Ok(()) => {
                proof {
                    use_type_invariant(&*self);
                }
                self.current_gtid = Some(global_tid);
                self.status = Status::Active;
                return Ok(());
            },
            Err(_) => {},
        }
        let ghost started = self@;
        let _ = self.rm_end_failure(global_tid);
        let ghost ended = self@;
        let _ = self.rm_rollback(global_tid);
        let ghost undone = self@;
        let r = self.rm_start(global_tid);
        let ghost restarted = self@;
        proof {
            let ops1 = seq![Operation::Start];
            crate::tm::coordinator::lemma_one_more_step(
                begun,
                started,
                ended,
                global_tid,
                ops1,
                Operation::EndFailure,
            );
            let ops2 = ops1.push(Operation::EndFailure);
            crate::tm::coordinator::lemma_one_more_step(
                begun,
                ended,
                undone,
                global_tid,
                ops2,
                Operation::Rollback,
            );
            let ops3 = ops2.push(Operation::Rollback);
            crate::tm::coordinator::lemma_one_more_step(
                begun,
                undone,
                restarted,
                global_tid,
                ops3,
                Operation::Start,
            );
            assert(ops3.push(Operation::Start) =~= crate::tm::coordinator::retried_start());
            assert(restarted.failed(begun, 0) == undone.failed(begun, 0));
        }
        match r {
            Ok(()) => {
                proof {
                    use_type_invariant(&*self);
                }
                self.current_gtid = Some(global_tid);
                self.status = Status::Active;
                Ok(())
            },
            Err(e) => {
                proof {
                    use_type_invariant(&*self);
                }
                self.status = Status::Idle;
                Err(e)
            },
        }
    }

    /// Internally, does commit_one_phase if only a single RM is involved, otherwise
    /// does 2PC: (end_success(), prepare(), commit() on all participating RMs)
    fn commit_transaction(&mut self) -> (r: Result<(), XaError>)
        ensures
            Coordinator::after_commit(old(self)@, final(self)@, r),
            final(self)@.wf(),
    {
        proof {
            use_type_invariant(&*self);
        }
        let current_gtid = match self.get_current_gtid() {
            Ok(gtid) => gtid,
            Err(e) => {
                return Err(e);
            },
        };
        let required = [Status::Active];
        match self.validate_and_set_status(required.as_slice(), Status::Committing) {
            Ok(()) => {},
            Err(e) => {
                return Err(e);
            },
        }
        let ghost begun = self@;

        // shortcut, if possible
        if self.rms.len() < 2 {
            let r = self.rm_commit_one_phase(current_gtid);
            if r.is_ok() {
                proof {
                    use_type_invariant(&*self);
                }
                self.current_gtid = None;
                self.status = Status::Committed;
            }
            return r;
        }
        let ghost steps = crate::tm::coordinator::commit_steps();

        // 1. end_success()
        let r = self.rm_end_success(current_gtid);
        let ghost ended = self@;
        if let Err(e) = r {
            let undone = self.try_rollback_after(current_gtid, "rm_end_success");
            proof {
                let ops = seq![Operation::EndSuccess];
                crate::tm::coordinator::lemma_one_more_step(
                    begun,
                    ended,
                    self@,
                    current_gtid,
                    ops,
                    Operation::Rollback,
                );
                assert(steps.take(1) =~= ops);
                assert(self@.failed(begun, 0) == ended.failed(begun, 0));
            }
            return match undone {
                Ok(()) => Err(e),
                Err(inconsistency) => Err(inconsistency),
            };
        }

        // 2. prepare()
        let r = self.rm_prepare(current_gtid);
        let ghost prepared = self@;
        proof {
            crate::tm::coordinator::lemma_one_more_step(
                begun,
                ended,
                prepared,
                current_gtid,
                seq![Operation::EndSuccess],
                Operation::Prepare,
            );
        }
        if let Err(e) = r {
            let undone = self.try_rollback_after(current_gtid, "rm_prepare");
            proof {
                let ops = seq![Operation::EndSuccess].push(Operation::Prepare);
                crate::tm::coordinator::lemma_one_more_step(
                    begun,
                    prepared,
                    self@,
                    current_gtid,
                    ops,
                    Operation::Rollback,
                );
                assert(steps.take(2) =~= ops);
                assert(self@.failed(begun, 0) == prepared.failed(begun, 0));
                assert(self@.failed(begun, 1) == prepared.failed(begun, 1));
            }
            return match undone {
                Ok(()) => Err(e),
                Err(inconsistency) => Err(inconsistency),
            };
        }

        // 3. commit()
        let r = self.rm_commit(current_gtid);
        let ghost committed = self@;
        proof {
            let ops = seq![Operation::EndSuccess].push(Operation::Prepare);
            crate::tm::coordinator::lemma_one_more_step(
                begun,
                prepared,
                committed,
                current_gtid,
                ops,
                Operation::Commit,
            );
            assert(ops.push(Operation::Commit) =~= steps);
            assert(committed.failed(begun, 0) == prepared.failed(begun, 0));
            assert(committed.failed(begun, 1) == prepared.failed(begun, 1));
        }
        if let Err(e) = r {
            let undone = self.try_rollback_after(current_gtid, "rm_commit");
            proof {
                crate::tm::coordinator::lemma_one_more_step(
                    begun,
                    committed,
                    self@,
                    current_gtid,
                    steps,
                    Operation::Rollback,
                );
                assert(steps.take(3) =~= steps);
                assert(self@.failed(begun, 0) == committed.failed(begun, 0));
                assert(self@.failed(begun, 1) == committed.failed(begun, 1));
                assert(self@.failed(begun, 2) == committed.failed(begun, 2));
            }
            return match undone {
                Ok(()) => Err(e),
                Err(inconsistency) => Err(inconsistency),
            };
        }
        proof {
            use_type_invariant(&*self);
        }
        self.current_gtid = None;
        self.status = Status::Committed;
        Ok(())
    }

    /// Rolls the current transaction back with all resource managers, and
    /// ends in `Status::RolledBack` whatever they answer. The error holds
    /// every failure, none left out.
    fn rollback_transaction(&mut self) -> (r: Result<(), XaError>)
        ensures
            Coordinator::after_rollback(old(self)@, final(self)@, r),
            final(self)@.wf(),
    {
        proof {
            use_type_invariant(&*self);
        }
        let current_gtid = match self.get_current_gtid() {
            Ok(gtid) => gtid,
            Err(e) => {
                return Err(e);
            },
        };
        let ghost begun = self@;
        let result = match self.status {
            Status::Active => {
                let ended = self.rm_end_failure(current_gtid);
                let ghost mid = self@;
                let undone = self.rm_rollback(current_gtid);
                proof {
                    let ops = seq![Operation::EndFailure];
                    crate::tm::coordinator::lemma_one_more_step(
                        begun,
                        mid,
                        self@,
                        current_gtid,
                        ops,
                        Operation::Rollback,
                    );
                    assert(ops.push(Operation::Rollback) =~= seq![
                        Operation::EndFailure,
                        Operation::Rollback,
                    ]);
                    assert(self@.failed(begun, 0) == mid.failed(begun, 0));
                }
                match ended {
                    Ok(()) => undone,
                    Err(XaError::RmErrors(mut failures)) => {
                        if let Err(XaError::RmErrors(mut more)) = undone {
                            failures.append(&mut more);
                        }
                        Err(XaError::RmErrors(failures))
                    },
                    Err(e) => Err(e),
                }
            },
            Status::Prepared | Status::RollbackOnly => {
                let undone = self.rm_rollback(current_gtid);
                undone
            },
            _ => Ok(()),
        };
        proof {
            use_type_invariant(&*self);
        }
        self.current_gtid = None;
        self.status = Status::RolledBack;
        result
    }

    /// Marks the transaction: its only possible outcome is to be rolled back.
    fn set_transaction_rollbackonly(&mut self) -> (r: Result<(), XaError>)
        ensures
            Coordinator::after_rollback_only(old(self)@, final(self)@, r),
            final(self)@.wf(),
    {
        proof {
            use_type_invariant(&*self);
        }
        let required = [Status::Idle, Status::Active, Status::Prepared, Status::RollbackOnly];
        self.validate_and_set_status(required.as_slice(), Status::RollbackOnly)
    }

    /// Returns the state of the transaction manager; never fails.
    fn get_status(&mut self) -> (r: Result<Status, XaError>)
        ensures
            r == Ok::<Status, XaError>(old(self)@.status),
            final(self)@ == old(self)@,
            final(self)@.wf(),
    {
        proof {
            use_type_invariant(&*self);
        }
        Ok(self.status)
    }
}

} // verus!
