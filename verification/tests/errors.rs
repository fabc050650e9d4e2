use exchange_core::error::{Error, GrpcCode};
use tonic::{Code, Status};

#[test]
fn test_error_to_status() {
    let err = Error::InsufficientBalance(100, 200);
    let status: Status = Status::new(Code::from(err.code().value()), err.message());
    assert_eq!(status.code(), Code::FailedPrecondition);
}

#[test]
fn test_error_to_code() {
    let err = Error::AccountNotFound(1, "USDT".to_string());
    let code: Code = Code::from(err.code().value());
    assert_eq!(code, Code::NotFound);
}

#[test]
fn error_messages() {
    assert_eq!(
        Error::InsufficientBalance(100, 200).message(),
        "Insufficient balance: available=100, required=200"
    );
    assert_eq!(
        Error::AccountNotFound(-3, "USDT".to_string()).message(),
        "Account not found: user_id=-3, asset=USDT"
    );
    assert_eq!(Error::Database("down".to_string()).message(), "Database error: down");
    assert_eq!(Error::AmountTooLarge(0).message(), "Amount too large: 0");
}

#[test]
fn every_error_has_its_code() {
    let cases = [
        (Error::AccountNotFound(1, String::new()), Code::NotFound),
        (Error::AssetNotSupported(String::new()), Code::InvalidArgument),
        (Error::InsufficientBalance(0, 1), Code::FailedPrecondition),
        (Error::InsufficientFrozen(0, 1), Code::FailedPrecondition),
        (Error::InsufficientLocked(0, 1), Code::FailedPrecondition),
        (Error::AmountInvalid(String::new()), Code::InvalidArgument),
        (Error::AmountTooSmall(0), Code::InvalidArgument),
        (Error::AmountTooLarge(0), Code::InvalidArgument),
        (Error::UserFrozen(0), Code::PermissionDenied),
        (Error::AccountLocked(0, String::new()), Code::PermissionDenied),
        (Error::OutcomeAssetInvalid(String::new()), Code::InvalidArgument),
        (Error::SettlementFailed(String::new()), Code::Internal),
        (Error::DuplicateOperation(String::new()), Code::AlreadyExists),
        (Error::OperationTimeout(String::new()), Code::DeadlineExceeded),
        (Error::Database(String::new()), Code::Internal),
        (Error::Internal(String::new()), Code::Internal),
    ];
    for (e, c) in cases {
        assert_eq!(Code::from(e.code().value()), c);
    }
    assert_eq!(GrpcCode::NotFound.value(), 5);
}
