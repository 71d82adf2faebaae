//! What a resource manager answers when it could handle a request.

use vstd::prelude::*;

verus! {

/// Return codes used by resource managers.
#[derive(Clone, Copy, Debug, PartialEq, Eq, Structural)]
pub enum ReturnCode {
    /// A rollback was caused by an unspecified reason.
    RollbackUnspecified,
    /// A rollback was caused by a communication failure.
    RollbackCommunicationFailure,
    /// A deadlock was detected.
    RollbackDeadlock,
    /// A condition that violates the integrity of the resources was detected.
    RollbackIntegrity,
    /// The transaction branch was rolled back for a reason not on this list.
    RollbackOther,
    /// A protocol error occurred in the resource manager.
    RollbackProtocol,
    /// A transaction branch took too long.
    RollbackTimeout,
    /// Transient issue, a retry with this transaction branch may work.
    RollbackTransient,
    /// The transaction branch has been heuristically completed.
    HeuristicallyCompleted,
    /// The transaction branch has been heuristically committed.
    HeuristicallyCommitted,
    /// The transaction branch has been heuristically rolled back.
    HeuristicallyRolledBack,
    /// The transaction branch has been heuristically committed and rolled back.
    HeuristicallyMessedUp,
    /// Nothing has happened, action may be retried.
    Retry,
    /// The transaction branch was read-only and has been committed.
    ReadOnlyCommitted,
    /// Normal execution.
    Okay,
    /// Should never be used.
    UnknownErrorCode(i32),
}

/// `ReturnCode` for short.
pub type RmRc = ReturnCode;

impl ReturnCode {
    /// The number that the XA standard gives to this return code.
    pub open spec fn code(self) -> i32 {
        match self {
            ReturnCode::RollbackUnspecified => 100,
            ReturnCode::RollbackCommunicationFailure => 101,
            ReturnCode::RollbackDeadlock => 102,
            ReturnCode::RollbackIntegrity => 103,
            ReturnCode::RollbackOther => 104,
            ReturnCode::RollbackProtocol => 105,
            ReturnCode::RollbackTimeout => 106,
            ReturnCode::RollbackTransient => 107,
            ReturnCode::HeuristicallyCompleted => 8,
            ReturnCode::HeuristicallyCommitted => 7,
            ReturnCode::HeuristicallyRolledBack => 6,
            ReturnCode::HeuristicallyMessedUp => 5,
            ReturnCode::Retry => 4,
            ReturnCode::ReadOnlyCommitted => 3,
            ReturnCode::Okay => 0,
            ReturnCode::UnknownErrorCode(i) => i,
        }
    }

    /// Whether the XA standard gives `i` a meaning as a return code.
    pub open spec fn is_defined(i: i32) -> bool {
        i == 0 || 3 <= i <= 8 || 100 <= i <= 107
    }

    /// Instantiate from the return code as defined in the XA standard.
    ///
    /// The result is the one return code whose number is `i`; it is
    /// `UnknownErrorCode` only for a number without a meaning.
    #[must_use]
    pub fn from_i32(i: i32) -> (rc: ReturnCode)
        ensures
            rc.code() == i,
            rc is UnknownErrorCode <==> !ReturnCode::is_defined(i),
    {
        match i {
            100 => ReturnCode::RollbackUnspecified,
            101 => ReturnCode::RollbackCommunicationFailure,
            102 => ReturnCode::RollbackDeadlock,
            103 => ReturnCode::RollbackIntegrity,
            104 => ReturnCode::RollbackOther,
            105 => ReturnCode::RollbackProtocol,
            106 => ReturnCode::RollbackTimeout,
            107 => ReturnCode::RollbackTransient,
            8 => ReturnCode::HeuristicallyCompleted,
            7 => ReturnCode::HeuristicallyCommitted,
            6 => ReturnCode::HeuristicallyRolledBack,
            5 => ReturnCode::HeuristicallyMessedUp,
            4 => ReturnCode::Retry,
            3 => ReturnCode::ReadOnlyCommitted,
            0 => ReturnCode::Okay,
            i => ReturnCode::UnknownErrorCode(i),
        }
    }
}

/// Two return codes that `from_i32` can give and that have the same number
/// are the same return code: the contract of `from_i32` has one solution.
pub proof fn lemma_return_code_by_number(a: ReturnCode, b: ReturnCode)
    requires
        a.code() == b.code(),
        a is UnknownErrorCode <==> !ReturnCode::is_defined(a.code()),
        b is UnknownErrorCode <==> !ReturnCode::is_defined(b.code()),
    ensures
        a == b,
{
}

} // verus!
