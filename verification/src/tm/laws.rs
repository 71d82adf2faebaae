//! What follows from the contracts of a transaction manager, stated over
//! the states before and after a call.

use crate::rm::resource_manager::{Exchange, Operation};
use crate::rm_error::RmError;
use crate::tm::coordinator::{branch_xid, failures, is_first_with, Coordinator, Participant};
use crate::tm::status::Status;
use crate::xa_error::XaError;
use vstd::prelude::*;

verus! {

/// Registering a second resource manager under an id fails with a usage
/// error, and leaves the first registered as it is.
pub proof fn lemma_second_registration_fails(
    before: Coordinator,
    between: Coordinator,
    after: Coordinator,
    first_history: Seq<Exchange>,
    second_history: Seq<Exchange>,
    rm_id: u64,
    first_cleanup: bool,
    second_cleanup: bool,
    first: Result<(), XaError>,
    second: Result<(), XaError>,
)
    requires
        Coordinator::after_register(before, between, first_history, rm_id, first_cleanup, first),
        Coordinator::after_register(
            between,
            after,
            second_history,
            rm_id,
            second_cleanup,
            second,
        ),
    ensures
        second matches Err(XaError::Usage(_)),
        after == between,
{
    if !before.has(rm_id) {
        // the first registration went through: its resource manager is the last
        let k = before.participants.len() as int;
        assert(between.participants[k].rm_id == rm_id);
    }
    assert(between.has(rm_id));
}

/// Unregistering twice is unregistering once: after the first call no
/// resource manager has the id, and the second changes nothing.
pub proof fn lemma_second_unregistration_changes_nothing(
    before: Coordinator,
    between: Coordinator,
    after: Coordinator,
    rm_id: u64,
    first: Result<(), XaError>,
    second: Result<(), XaError>,
)
    requires
        Coordinator::after_unregister(before, between, rm_id, first),
        Coordinator::after_unregister(between, after, rm_id, second),
    ensures
        !between.has(rm_id),
        after == between,
        first is Ok && second is Ok,
{
    assert forall|k: int| !is_first_with(between.participants, rm_id, k) by {}
    assert(after.participants =~= between.participants);
}

/// Starting a transaction while one is active fails with a usage error, and
/// changes nothing.
pub proof fn lemma_start_while_active_fails(
    pre: Coordinator,
    post: Coordinator,
    r: Result<(), XaError>,
)
    requires
        Coordinator::after_start(pre, post, r),
        pre.status == Status::Active,
    ensures
        r matches Err(XaError::UsageDetails(_)),
        post == pre,
{
}

/// The number of a global transaction is used once: a start that is let
/// through takes the number after the last, for good, whether or not the
/// resource managers then start their branches.
pub proof fn lemma_start_takes_next_number(
    pre: Coordinator,
    post: Coordinator,
    r: Result<(), XaError>,
)
    requires
        Coordinator::after_start(pre, post, r),
        pre.status.is_at_rest(),
        pre.last_gtid < u64::MAX,
    ensures
        post.last_gtid == pre.last_gtid + 1,
        r is Ok ==> post.current_gtid == Some(post.last_gtid) && post.status == Status::Active,
        r is Err ==> post.status == Status::Idle,
{
}

/// With one registered resource manager a commit is a one-phase commit: the
/// resource manager is asked that, and nothing else.
pub proof fn lemma_single_participant_commits_in_one_phase(
    pre: Coordinator,
    post: Coordinator,
    r: Result<(), XaError>,
    gtid: u64,
)
    requires
        Coordinator::after_commit(pre, post, r),
        pre.status == Status::Active,
        pre.current_gtid == Some(gtid),
        pre.participants.len() == 1,
    ensures
        post.participants.len() == 1,
        post.participants[0].history.len() == pre.participants[0].history.len() + 1,
        post.participants[0].history.drop_last() == pre.participants[0].history,
        post.participants[0].history.last().asks(
            Operation::CommitOnePhase,
            branch_xid(gtid, pre.identity, pre.participants[0].rm_id),
        ),
        r is Ok <==> post.participants[0].history.last().failure() is None,
        r is Ok <==> post.status == Status::Committed,
{
    let ops = seq![Operation::CommitOnePhase];
    let a = pre.participants[0];
    let b = post.participants[0];
    assert(b.asked(a, pre.identity, gtid, ops));
    assert(b.added(a, 0).asks(ops[0], branch_xid(gtid, pre.identity, a.rm_id)));
    assert(b.history.drop_last() =~= b.history.take(a.history.len() as int));
    assert(failures(pre.participants, post.participants, 0, 0) == Seq::<RmError>::empty());
}

/// Every failure counts: where a resource manager failed a step, the
/// failures of the step hold its error; and they hold nothing but the errors
/// of resource managers that failed the step, at most one for each.
pub proof fn lemma_failures_are_complete(
    pre: Seq<Participant>,
    post: Seq<Participant>,
    j: int,
    n: nat,
)
    ensures
        failures(pre, post, j, n).len() <= n,
        forall|k: int|
            0 <= k < n && (#[trigger] post[k].added(pre[k], j)).failure() is Some ==> failures(
                pre,
                post,
                j,
                n,
            ).contains(post[k].added(pre[k], j).failure()->Some_0),
        forall|e: RmError| #[trigger]
            failures(pre, post, j, n).contains(e) ==> exists|k: int|
                0 <= k < n && (#[trigger] post[k].added(pre[k], j)).failure() == Some(e),
    decreases n,
{
    if n > 0 {
        let m = (n - 1) as nat;
        lemma_failures_are_complete(pre, post, j, m);
        let before = failures(pre, post, j, m);
        let now = failures(pre, post, j, n);
        let last = post[m as int].added(pre[m as int], j);
        assert forall|k: int|
            0 <= k < n && (#[trigger] post[k].added(pre[k], j)).failure() is Some implies now.contains(
            post[k].added(pre[k], j).failure()->Some_0,
        ) by {
            let e = post[k].added(pre[k], j).failure()->Some_0;
            if k < m {
                assert(before.contains(e));
                let at = choose|at: int| 0 <= at < before.len() && before[at] == e;
                assert(now[at] == e);
            } else {
                assert(now == before.push(e));
                assert(now[before.len() as int] == e);
            }
        }
        assert forall|e: RmError| #[trigger] now.contains(e) implies exists|k: int|
            0 <= k < n && (#[trigger] post[k].added(pre[k], j)).failure() == Some(e) by {
            let at = choose|at: int| 0 <= at < now.len() && now[at] == e;
            if at < before.len() {
                assert(before.contains(e));
                let k = choose|k: int|
                    0 <= k < m && (#[trigger] post[k].added(pre[k], j)).failure() == Some(e);
                assert(0 <= k < n && post[k].added(pre[k], j).failure() == Some(e));
            } else {
                assert(last.failure() == Some(e));
            }
        }
    }
}

/// With two or more registered resource managers, a commit in which the
/// resource manager number `k` fails to prepare asks every resource manager
/// to roll back, those that have prepared too, and leaves the transaction
/// manager idle. Where all roll back, the error holds the failures of the
/// prepare step; where not, it is an inconsistency.
pub proof fn lemma_failed_prepare_rolls_back_all(
    pre: Coordinator,
    post: Coordinator,
    r: Result<(), XaError>,
    gtid: u64,
    k: int,
)
    requires
        Coordinator::after_commit(pre, post, r),
        pre.status == Status::Active,
        pre.current_gtid == Some(gtid),
        pre.participants.len() >= 2,
        0 <= k < pre.participants.len(),
        post.participants[k].added(pre.participants[k], 1).asks(
            Operation::Prepare,
            branch_xid(gtid, pre.identity, pre.participants[k].rm_id),
        ),
        post.participants[k].added(pre.participants[k], 1).failure() is Some,
    ensures
        forall|i: int|
            0 <= i < pre.participants.len() ==> (#[trigger] post.participants[i]).history.len()
                == pre.participants[i].history.len() + 3 && post.participants[i].added(
                pre.participants[i],
                2,
            ).asks(Operation::Rollback, branch_xid(gtid, pre.identity, pre.participants[i].rm_id)),
        post.status == Status::Idle,
        post.current_gtid is None,
        post.failed(pre, 2).len() == 0 ==> (r matches Err(XaError::RmErrors(v)) && v@
            == post.failed(pre, 1)),
        post.failed(pre, 2).len() > 0 ==> r is Err && r->Err_0 is Inconsistency,
        post.failed(pre, 1).contains(
            post.participants[k].added(pre.participants[k], 1).failure()->Some_0,
        ),
{
    let steps = crate::tm::coordinator::commit_steps();
    let a = pre.participants[k];
    let b = post.participants[k];
    lemma_failures_are_complete(pre.participants, post.participants, 1, pre.participants.len());
    assert(post.failed(pre, 1).len() > 0);
    if post.gave_up_at(pre, gtid, 0, r) {
        // then the second request to each was to roll back, not to prepare
        let ops = steps.take(1).push(Operation::Rollback);
        assert(b.asked(a, pre.identity, gtid, ops));
        assert(b.added(a, 1).asks(ops[1], branch_xid(gtid, pre.identity, a.rm_id)));
        assert(false);
    }
    assert(post.gave_up_at(pre, gtid, 1, r));
    let ops = steps.take(2).push(Operation::Rollback);
    assert forall|i: int| 0 <= i < pre.participants.len() implies (
    #[trigger] post.participants[i]).history.len() == pre.participants[i].history.len() + 3
        && post.participants[i].added(pre.participants[i], 2).asks(
        Operation::Rollback,
        branch_xid(gtid, pre.identity, pre.participants[i].rm_id),
    ) by {
        let c = pre.participants[i];
        let d = post.participants[i];
        assert(d.asked(c, pre.identity, gtid, ops));
        assert(d.added(c, 2).asks(ops[2], branch_xid(gtid, pre.identity, c.rm_id)));
    }
}

/// Where a step of a commit has failed and the rollback that follows fails
/// too, the error is an inconsistency that holds the failures of the
/// rollback, not those of the step.
pub proof fn lemma_failed_rollback_is_inconsistency(
    pre: Coordinator,
    post: Coordinator,
    r: Result<(), XaError>,
    gtid: u64,
    step: int,
)
    requires
        0 <= step <= 2,
        post.gave_up_at(pre, gtid, step, r),
        post.failed(pre, step + 1).len() > 0,
    ensures
        r matches Err(XaError::Inconsistency(m, v)) && v@ == post.failed(pre, step + 1) && m@
            == crate::tm::coordinator::inconsistency_message(
            crate::tm::coordinator::commit_step_name(step),
        ),
{
}

/// The branches of one global transaction have ids that share the global
/// transaction id and the first half of the branch qualifier, which is the
/// identity of the transaction manager. They differ in nothing but the second
/// half, which is the id of the resource manager, and do differ there for two
/// resource managers.
pub proof fn lemma_branches_differ_in_rm_id(gtid: u64, tm_id: u64, one: u64, other: u64)
    ensures
        branch_xid(gtid, tm_id, one).format_id == branch_xid(gtid, tm_id, other).format_id,
        branch_xid(gtid, tm_id, one).global_tid == crate::le::le_bytes_u64(gtid),
        branch_xid(gtid, tm_id, other).global_tid == crate::le::le_bytes_u64(gtid),
        branch_xid(gtid, tm_id, one).branch_qualifier.len() == 16,
        branch_xid(gtid, tm_id, one).branch_qualifier.take(8) == crate::le::le_bytes_u64(tm_id),
        branch_xid(gtid, tm_id, other).branch_qualifier.take(8) == crate::le::le_bytes_u64(
            tm_id,
        ),
        branch_xid(gtid, tm_id, one).branch_qualifier.skip(8) == crate::le::le_bytes_u64(one),
        one != other ==> branch_xid(gtid, tm_id, one).branch_qualifier.skip(8) != branch_xid(
            gtid,
            tm_id,
            other,
        ).branch_qualifier.skip(8),
        branch_xid(gtid, tm_id, one).wf(),
{
    crate::le::lemma_le_u64_value_of_bytes(gtid);
    crate::le::lemma_le_u64_value_of_bytes(tm_id);
    crate::le::lemma_le_u64_value_of_bytes(one);
    crate::le::lemma_le_u64_value_of_bytes(other);
    let a = branch_xid(gtid, tm_id, one).branch_qualifier;
    let b = branch_xid(gtid, tm_id, other).branch_qualifier;
    assert(a.take(8) =~= crate::le::le_bytes_u64(tm_id));
    assert(b.take(8) =~= crate::le::le_bytes_u64(tm_id));
    assert(a.skip(8) =~= crate::le::le_bytes_u64(one));
    assert(b.skip(8) =~= crate::le::le_bytes_u64(other));
}

/// A global transaction is current only while one is under way.
pub proof fn lemma_current_only_while_under_way(c: Coordinator)
    requires
        c.wf(),
    ensures
        c.current_gtid is Some ==> !c.status.is_at_rest(),
        c.current_gtid is Some ==> c.current_gtid == Some(c.last_gtid),
{
}

} // verus!
