//! The kinds of failure that a resource manager reports.

use vstd::prelude::*;

verus! {

/// Errors occuring in resource managers.
#[derive(Clone, Copy, Debug, PartialEq, Eq, Structural)]
pub enum ErrorCode {
    /// The branch was rolled back for an unspecified reason.
    RollbackUnspecified,
    /// The branch was rolled back after a communication failure.
    RollbackCommunicationFailure,
    /// The branch was rolled back because a deadlock was detected.
    RollbackDeadlock,
    /// The branch was rolled back because the integrity of the resources was
    /// at stake.
    RollbackIntegrity,
    /// The branch was rolled back after a protocol error in the resource
    /// manager.
    RollbackProtocol,
    /// The branch was rolled back because it took too long.
    RollbackTimeout,
    /// The branch was rolled back for a reason not on this list.
    RollbackOther,
    /// Nothing has happened, the request may be retried.
    Retry,
    /// The branch has been heuristically committed.
    HeuristicallyCommitted,
    /// The branch has been heuristically rolled back.
    HeuristicallyRolledBack,
    /// The branch has been heuristically committed in part and rolled back in
    /// part.
    HeuristicallyMessedUp,
    /// A resource manager error occurred in the transaction branch.
    RmError,
    /// Invalid Transaction ID.
    InvalidTransactionId,
    /// Invalid arguments were given.
    InvalidArguments,
    /// routine invoked in an improper context.
    ProtocolError,
    /// resource manager is unavailable.
    RmFailure,
    /// The XID already exists.
    DuplicateTransactionId,
    /// Should never be used.
    UnknownErrorCode(i32),
}

impl ErrorCode {
    /// Whether the XA standard gives `i` a meaning as an error code.
    pub open spec fn is_defined(i: i32) -> bool {
        -8 <= i <= -3
    }

    /// The error kind that the XA standard numbers `i`: the six kinds from
    /// -3 down to -8 in the order of their declaration, and
    /// `UnknownErrorCode(i)` for every other number.
    pub open spec fn of(i: i32) -> ErrorCode {
        if i == -3 {
            ErrorCode::RmError
        } else if i == -4 {
            ErrorCode::InvalidTransactionId
        } else if i == -5 {
            ErrorCode::InvalidArguments
        } else if i == -6 {
            ErrorCode::ProtocolError
        } else if i == -7 {
            ErrorCode::RmFailure
        } else if i == -8 {
            ErrorCode::DuplicateTransactionId
        } else {
            ErrorCode::UnknownErrorCode(i)
        }
    }

    /// Instantiate from the error code as defined in the XA standard.
    #[must_use]
    pub fn from_i32(i: i32) -> (ec: ErrorCode)
        ensures
            ec == ErrorCode::of(i),
            ec is UnknownErrorCode <==> !ErrorCode::is_defined(i),
    {
        match i {
            -3 => ErrorCode::RmError,
            -4 => ErrorCode::InvalidTransactionId,
            -5 => ErrorCode::InvalidArguments,
            -6 => ErrorCode::ProtocolError,
            -7 => ErrorCode::RmFailure,
            -8 => ErrorCode::DuplicateTransactionId,
            i => ErrorCode::UnknownErrorCode(i),
        }
    }
}

} // verus!
