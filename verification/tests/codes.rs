use dist_tx::rm::Error;
use dist_tx::tm::{TmError, TmResult};
use dist_tx::{ErrorCode, ReturnCode, RmError, RmRc, XaError};

#[test]
fn return_codes_follow_the_standard() {
    assert_eq!(ReturnCode::from_i32(100), ReturnCode::RollbackUnspecified);
    assert_eq!(ReturnCode::from_i32(101), ReturnCode::RollbackCommunicationFailure);
    assert_eq!(ReturnCode::from_i32(102), ReturnCode::RollbackDeadlock);
    assert_eq!(ReturnCode::from_i32(103), ReturnCode::RollbackIntegrity);
    assert_eq!(ReturnCode::from_i32(104), ReturnCode::RollbackOther);
    assert_eq!(ReturnCode::from_i32(105), ReturnCode::RollbackProtocol);
    assert_eq!(ReturnCode::from_i32(106), ReturnCode::RollbackTimeout);
    assert_eq!(ReturnCode::from_i32(107), ReturnCode::RollbackTransient);
    assert_eq!(ReturnCode::from_i32(8), ReturnCode::HeuristicallyCompleted);
    assert_eq!(ReturnCode::from_i32(7), ReturnCode::HeuristicallyCommitted);
    assert_eq!(ReturnCode::from_i32(6), ReturnCode::HeuristicallyRolledBack);
    assert_eq!(ReturnCode::from_i32(5), ReturnCode::HeuristicallyMessedUp);
    assert_eq!(ReturnCode::from_i32(4), ReturnCode::Retry);
    assert_eq!(ReturnCode::from_i32(3), ReturnCode::ReadOnlyCommitted);
    assert_eq!(ReturnCode::from_i32(0), ReturnCode::Okay);
}

#[test]
fn other_numbers_are_unknown_return_codes() {
    for i in [1, 2, 9, 99, 108, -1, -3, i32::MAX, i32::MIN] {
        assert_eq!(ReturnCode::from_i32(i), ReturnCode::UnknownErrorCode(i));
    }
}

#[test]
fn the_old_name_means_the_same_return_codes() {
    assert_eq!(RmRc::from_i32(106), ReturnCode::RollbackTimeout);
    assert_eq!(RmRc::from_i32(0), RmRc::Okay);
    assert_eq!(RmRc::from_i32(42), RmRc::UnknownErrorCode(42));
}

#[test]
fn error_codes_follow_the_standard() {
    assert_eq!(ErrorCode::from_i32(-3), ErrorCode::RmError);
    assert_eq!(ErrorCode::from_i32(-4), ErrorCode::InvalidTransactionId);
    assert_eq!(ErrorCode::from_i32(-5), ErrorCode::InvalidArguments);
    assert_eq!(ErrorCode::from_i32(-6), ErrorCode::ProtocolError);
    assert_eq!(ErrorCode::from_i32(-7), ErrorCode::RmFailure);
    assert_eq!(ErrorCode::from_i32(-8), ErrorCode::DuplicateTransactionId);
}

#[test]
fn other_numbers_are_unknown_error_codes() {
    for i in [0, 1, -1, -2, -9, 100, 106, i32::MAX, i32::MIN] {
        assert_eq!(ErrorCode::from_i32(i), ErrorCode::UnknownErrorCode(i));
    }
}

#[test]
fn an_error_holds_its_code_and_description() {
    let e = RmError::new(ErrorCode::RollbackDeadlock, String::from("deadlock in branch 4"));
    assert_eq!(e.get_code(), ErrorCode::RollbackDeadlock);
    assert_eq!(e.get_description(), "deadlock in branch 4");

    let e = Error::new(ErrorCode::UnknownErrorCode(17), String::new());
    assert_eq!(e.get_code(), ErrorCode::UnknownErrorCode(17));
    assert_eq!(e.get_description(), "");
}

#[test]
fn every_kind_of_error_can_be_reported() {
    let kinds = [
        ErrorCode::RollbackUnspecified,
        ErrorCode::RollbackCommunicationFailure,
        ErrorCode::RollbackDeadlock,
        ErrorCode::RollbackIntegrity,
        ErrorCode::RollbackProtocol,
        ErrorCode::RollbackTimeout,
        ErrorCode::RollbackOther,
        ErrorCode::Retry,
        ErrorCode::HeuristicallyCommitted,
        ErrorCode::HeuristicallyRolledBack,
        ErrorCode::HeuristicallyMessedUp,
        ErrorCode::RmError,
        ErrorCode::InvalidTransactionId,
        ErrorCode::InvalidArguments,
        ErrorCode::ProtocolError,
        ErrorCode::RmFailure,
        ErrorCode::DuplicateTransactionId,
        ErrorCode::UnknownErrorCode(-99),
    ];
    for (i, kind) in kinds.iter().enumerate() {
        let e = RmError::new(*kind, format!("error {}", i));
        assert_eq!(e.get_code(), *kind);
        for (j, other) in kinds.iter().enumerate() {
            assert_eq!(i == j, kind == other);
        }
    }
}

#[test]
fn the_description_of_an_error_of_the_transaction_manager() {
    let rm_errors = XaError::RmErrors(vec![RmError::new(ErrorCode::RmFailure, String::from("down"))]);
    assert_eq!(
        rm_errors.get_description(),
        "Error was caused by one or multiple Resource Manager Errors"
    );
    assert_eq!(XaError::Usage("wrong call").get_description(), "wrong call");
    assert_eq!(
        XaError::UsageDetails(String::from("wrong state")).get_description(),
        "wrong state"
    );
    assert_eq!(XaError::ReadXid(String::from("too short")).get_description(), "too short");
    assert_eq!(
        XaError::Inconsistency(String::from("half done"), vec![]).get_description(),
        "half done"
    );
}

#[test]
fn the_error_of_a_transaction_holds_the_errors_of_resource_managers() {
    let failed: TmResult<()> = Err(TmError::RmError(vec![
        RmError::new(ErrorCode::RollbackTimeout, String::from("too slow")),
        RmError::new(ErrorCode::RmFailure, String::from("down")),
    ]));
    match failed {
        Err(TmError::RmError(errors)) => {
            assert_eq!(errors.len(), 2);
            assert_eq!(errors[0].get_code(), ErrorCode::RollbackTimeout);
            assert_eq!(errors[1].get_description(), "down");
        }
        other => panic!("unexpected: {:?}", other),
    }
    assert!(matches!(TmError::Usage("wrong call"), TmError::Usage("wrong call")));
}
