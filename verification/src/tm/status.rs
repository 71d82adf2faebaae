//! The states of a transaction manager.

use vstd::prelude::*;
use vstd::string::StringExecFns;

verus! {

/// States of a `TransactionManager`.
#[derive(Clone, Copy, Debug, PartialEq, Eq, Structural, Hash)]
pub enum Status {
    /// No transaction in use.
    Idle,
    /// New Transaction is currently being started.
    Activating,
    /// Current transaction can be used for changes.
    Active,
    /// Current transaction is currently being prepared.
    Preparing,
    /// Current transaction is ready to be committed and can no more be used for changes.
    Prepared,
    /// An attempt to commit the current transaction is ongoing.
    Committing,
    /// Current transaction was successfully committed.
    Committed,
    /// Current transaction has failed or was marked as RollbackOnly and cannot be committed.
    RollbackOnly,
    /// Current transaction is currently being rolled back.
    RollingBack,
    /// Current transaction is rolled back.
    RolledBack,
}

impl Status {
    /// The name of the state in messages.
    pub open spec fn name(self) -> Seq<char> {
        match self {
            Status::Idle => "IDLE"@,
            Status::Activating => "ACTIVATING"@,
            Status::Active => "ACTIVE"@,
            Status::Preparing => "PREPARING"@,
            Status::Prepared => "PREPARED"@,
            Status::Committing => "COMMITTING"@,
            Status::Committed => "COMMITTED"@,
            Status::RollbackOnly => "ROLLBACK_ONLY"@,
            Status::RollingBack => "ROLLINGBACK"@,
            Status::RolledBack => "ROLLEDBACK"@,
        }
    }

    /// The names of the states in `set`, in their order, with `" | "` between
    /// two of them.
    pub open spec fn names(set: Seq<Status>) -> Seq<char>
        decreases set.len(),
    {
        if set.len() == 0 {
            Seq::empty()
        } else if set.len() == 1 {
            set[0].name()
        } else {
            Status::names(set.drop_last()) + " | "@ + set.last().name()
        }
    }

    /// A new global transaction can start in these states only: none is
    /// under way.
    pub open spec fn is_at_rest(self) -> bool {
        self is Idle || self is Committed || self is RolledBack
    }

    /// In these states a global transaction is under way and not yet on its
    /// way to be committed: a transaction manager that goes away rolls it
    /// back.
    pub open spec fn is_unfinished(self) -> bool {
        self is Activating || self is Active || self is Preparing || self is Prepared
            || self is RollbackOnly || self is RollingBack
    }

    /// The name of the state in messages.
    pub fn as_str(self) -> (name: &'static str)
        ensures
            name@ == self.name(),
    {
        match self {
            Status::Idle => "IDLE",
            Status::Activating => "ACTIVATING",
            Status::Active => "ACTIVE",
            Status::Preparing => "PREPARING",
            Status::Prepared => "PREPARED",
            Status::Committing => "COMMITTING",
            Status::Committed => "COMMITTED",
            Status::RollbackOnly => "ROLLBACK_ONLY",
            Status::RollingBack => "ROLLINGBACK",
            Status::RolledBack => "ROLLEDBACK",
        }
    }

    /// Whether this state is one of `set`.
    pub fn is_one_of(self, set: &[Status]) -> (found: bool)
        ensures
            found == set@.contains(self),
    {
        let mut i: usize = 0;
        while i < set.len()
            invariant
                i <= set@.len(),
                forall|k: int| 0 <= k < i ==> set@[k] != self,
            decreases set@.len() - i,
        {
            if set[i] == self {
                return true;
            }
            i = i + 1;
        }
        false
    }

    /// The names of the states in `set`, in their order, with `" | "` between
    /// two of them.
    pub fn join_names(set: &[Status]) -> (text: String)
        ensures
            text@ == Status::names(set@),
    {
        let mut text = String::new();
        let mut i: usize = 0;
        while i < set.len()
            invariant
                i <= set@.len(),
                text@ == Status::names(set@.take(i as int)),
            decreases set@.len() - i,
        {
            proof {
                assert(set@.take(i + 1).drop_last() =~= set@.take(i as int));
            }
            if i > 0 {
                text.append(" | ");
            }
            text.append(set[i].as_str());
            i = i + 1;
        }
        proof {
            assert(set@.take(set@.len() as int) =~= set@);
        }
        text
    }
}

} // verus!
