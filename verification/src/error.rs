//! Errors of the account service, their messages and the gRPC status codes
//! they are answered with.
use vstd::prelude::*;
use crate::numtext::{i64_to_string, int_to_decimal};

verus! {

/// What can go wrong in a balance operation.
#[derive(Debug, Clone)]
pub enum Error {
    AccountNotFound(i64, String),
    AssetNotSupported(String),
    /// Available balance, required amount.
    InsufficientBalance(i64, i64),
    /// Frozen balance, required amount.
    InsufficientFrozen(i64, i64),
    /// Locked balance, required amount.
    InsufficientLocked(i64, i64),
    AmountInvalid(String),
    AmountTooSmall(i64),
    AmountTooLarge(i64),
    UserFrozen(i64),
    AccountLocked(i64, String),
    OutcomeAssetInvalid(String),
    SettlementFailed(String),
    DuplicateOperation(String),
    OperationTimeout(String),
    Database(String),
    Internal(String),
}

/// The gRPC status codes that errors are answered with; `value` gives the
/// code's number in the gRPC protocol.
#[derive(Debug, Clone, Copy, PartialEq, Eq, Structural)]
pub enum GrpcCode {
    InvalidArgument,
    DeadlineExceeded,
    NotFound,
    AlreadyExists,
    PermissionDenied,
    FailedPrecondition,
    Internal,
}

impl GrpcCode {
    pub open spec fn spec_value(self) -> i32 {
        match self {
            GrpcCode::InvalidArgument => 3,
            GrpcCode::DeadlineExceeded => 4,
            GrpcCode::NotFound => 5,
            GrpcCode::AlreadyExists => 6,
            GrpcCode::PermissionDenied => 7,
            GrpcCode::FailedPrecondition => 9,
            GrpcCode::Internal => 13,
        }
    }

    /// The number of the code in the gRPC protocol.
    pub fn value(&self) -> (r: i32)
        ensures
            r == self.spec_value(),
    {
        match self {
            GrpcCode::InvalidArgument => 3,
            GrpcCode::DeadlineExceeded => 4,
            GrpcCode::NotFound => 5,
            GrpcCode::AlreadyExists => 6,
            GrpcCode::PermissionDenied => 7,
            GrpcCode::FailedPrecondition => 9,
            GrpcCode::Internal => 13,
        }
    }
}

impl Error {
    /// The status code an error is answered with.
    pub open spec fn spec_code(&self) -> GrpcCode {
        match self {
            Error::AccountNotFound(_, _) => GrpcCode::NotFound,
            Error::AssetNotSupported(_) => GrpcCode::InvalidArgument,
            Error::InsufficientBalance(_, _) => GrpcCode::FailedPrecondition,
            Error::InsufficientFrozen(_, _) => GrpcCode::FailedPrecondition,
            Error::InsufficientLocked(_, _) => GrpcCode::FailedPrecondition,
            Error::AmountInvalid(_) => GrpcCode::InvalidArgument,
            Error::AmountTooSmall(_) => GrpcCode::InvalidArgument,
            Error::AmountTooLarge(_) => GrpcCode::InvalidArgument,
            Error::UserFrozen(_) => GrpcCode::PermissionDenied,
            Error::AccountLocked(_, _) => GrpcCode::PermissionDenied,
            Error::OutcomeAssetInvalid(_) => GrpcCode::InvalidArgument,
            Error::SettlementFailed(_) => GrpcCode::Internal,
            Error::DuplicateOperation(_) => GrpcCode::AlreadyExists,
            Error::OperationTimeout(_) => GrpcCode::DeadlineExceeded,
            Error::Database(_) => GrpcCode::Internal,
            Error::Internal(_) => GrpcCode::Internal,
        }
    }

    /// The status code an error is answered with: not-found for a missing
    /// account, failed-precondition for a short balance, invalid-argument for
    /// bad input, and so on.
    pub fn code(&self) -> (r: GrpcCode)
        ensures
            r == self.spec_code(),
    {
        match self {
            Error::AccountNotFound(_, _) => GrpcCode::NotFound,
            Error::AssetNotSupported(_) => GrpcCode::InvalidArgument,
            Error::InsufficientBalance(_, _) => GrpcCode::FailedPrecondition,
            Error::InsufficientFrozen(_, _) => GrpcCode::FailedPrecondition,
            Error::InsufficientLocked(_, _) => GrpcCode::FailedPrecondition,
            Error::AmountInvalid(_) => GrpcCode::InvalidArgument,
            Error::AmountTooSmall(_) => GrpcCode::InvalidArgument,
            Error::AmountTooLarge(_) => GrpcCode::InvalidArgument,
            Error::UserFrozen(_) => GrpcCode::PermissionDenied,
            Error::AccountLocked(_, _) => GrpcCode::PermissionDenied,
            Error::OutcomeAssetInvalid(_) => GrpcCode::InvalidArgument,
            Error::SettlementFailed(_) => GrpcCode::Internal,
            Error::DuplicateOperation(_) => GrpcCode::AlreadyExists,
            Error::OperationTimeout(_) => GrpcCode::DeadlineExceeded,
            Error::Database(_) => GrpcCode::Internal,
            Error::Internal(_) => GrpcCode::Internal,
        }
    }

    /// The human-readable message of an error.
    pub open spec fn spec_message(&self) -> Seq<char> {
        match self {
            Error::AccountNotFound(u, a) => "Account not found: user_id="@ + int_to_decimal(
                *u as int,
            ) + ", asset="@ + a@,
            Error::AssetNotSupported(s) => "Asset not supported: "@ + s@,
            Error::InsufficientBalance(x, y) => "Insufficient balance: available="@
                + int_to_decimal(*x as int) + ", required="@ + int_to_decimal(*y as int),
            Error::InsufficientFrozen(x, y) => "Insufficient frozen: frozen="@ + int_to_decimal(
                *x as int,
            ) + ", required="@ + int_to_decimal(*y as int),
            Error::InsufficientLocked(x, y) => "Insufficient locked: locked="@ + int_to_decimal(
                *x as int,
            ) + ", required="@ + int_to_decimal(*y as int),
            Error::AmountInvalid(s) => "Amount invalid: "@ + s@,
            Error::AmountTooSmall(x) => "Amount too small: "@ + int_to_decimal(*x as int),
            Error::AmountTooLarge(x) => "Amount too large: "@ + int_to_decimal(*x as int),
            Error::UserFrozen(u) => "User frozen: user_id="@ + int_to_decimal(*u as int),
            Error::AccountLocked(u, a) => "Account locked: user_id="@ + int_to_decimal(*u as int)
                + ", asset="@ + a@,
            Error::OutcomeAssetInvalid(s) => "Outcome asset invalid: "@ + s@,
            Error::SettlementFailed(s) => "Settlement failed: "@ + s@,
            Error::DuplicateOperation(s) => "Duplicate operation: "@ + s@,
            Error::OperationTimeout(s) => "Operation timeout: "@ + s@,
            Error::Database(s) => "Database error: "@ + s@,
            Error::Internal(s) => "Internal error: "@ + s@,
        }
    }

    /// The human-readable message of an error, such as
    /// `"Insufficient balance: available=100, required=200"`.
    pub fn message(&self) -> (r: String)
        ensures
            r@ == self.spec_message(),
    {
        match self {
            Error::AccountNotFound(u, a) => {
                let mut s = String::from_str("Account not found: user_id=");
                s.append(i64_to_string(*u).as_str());
                s.append(", asset=");
                s.append(a.as_str());
                s
            },
            Error::AssetNotSupported(x) => String::from_str("Asset not supported: ").concat(
                x.as_str(),
            ),
            Error::InsufficientBalance(x, y) => {
                let mut s = String::from_str("Insufficient balance: available=");
                s.append(i64_to_string(*x).as_str());
                s.append(", required=");
                s.append(i64_to_string(*y).as_str());
                s
            },
            Error::InsufficientFrozen(x, y) => {
                let mut s = String::from_str("Insufficient frozen: frozen=");
                s.append(i64_to_string(*x).as_str());
                s.append(", required=");
                s.append(i64_to_string(*y).as_str());
                s
            },
            Error::InsufficientLocked(x, y) => {
                let mut s = String::from_str("Insufficient locked: locked=");
                s.append(i64_to_string(*x).as_str());
                s.append(", required=");
                s.append(i64_to_string(*y).as_str());
                s
            },
            Error::AmountInvalid(x) => String::from_str("Amount invalid: ").concat(x.as_str()),
            Error::AmountTooSmall(x) => String::from_str("Amount too small: ").concat(
                i64_to_string(*x).as_str(),
            ),
            Error::AmountTooLarge(x) => String::from_str("Amount too large: ").concat(
                i64_to_string(*x).as_str(),
            ),
            Error::UserFrozen(u) => String::from_str("User frozen: user_id=").concat(
                i64_to_string(*u).as_str(),
            ),
            Error::AccountLocked(u, a) => {
                let mut s = String::from_str("Account locked: user_id=");
                s.append(i64_to_string(*u).as_str());
                s.append(", asset=");
                s.append(a.as_str());
                s
            },
            Error::OutcomeAssetInvalid(x) => String::from_str("Outcome asset invalid: ").concat(
                x.as_str(),
            ),
            Error::SettlementFailed(x) => String::from_str("Settlement failed: ").concat(
                x.as_str(),
            ),
            Error::DuplicateOperation(x) => String::from_str("Duplicate operation: ").concat(
                x.as_str(),
            ),
            Error::OperationTimeout(x) => String::from_str("Operation timeout: ").concat(
                x.as_str(),
            ),
            Error::Database(x) => String::from_str("Database error: ").concat(x.as_str()),
            Error::Internal(x) => String::from_str("Internal error: ").concat(x.as_str()),
        }
    }
}

} // verus!
