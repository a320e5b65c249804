//! Why a request is not served.

use vstd::prelude::*;
use vstd::std_specs::convert::FromSpecImpl;
use crate::response::Status;

verus! {

/// `sqlx::Error`, carried through unread.
#[verifier::external_type_specification]
#[verifier::external_body]
pub struct ExSqlxError(sqlx::Error);

/// Any failure of the store: no connection, a violated constraint, a timeout.
/// It carries no cause.
#[derive(Debug, Clone, Copy, PartialEq, Eq, Structural)]
pub struct StoreError;

impl From<sqlx::Error> for StoreError {
    /// Every failure of the database is the same failure of the store.
    fn from(error: sqlx::Error) -> (failure: StoreError) {
        StoreError
    }
}

impl FromSpecImpl<sqlx::Error> for StoreError {
    open spec fn obeys_from_spec() -> bool {
        true
    }

    open spec fn from_spec(error: sqlx::Error) -> StoreError {
        StoreError
    }
}

/// Why a request was not served.
#[derive(Debug, Clone, Copy, PartialEq, Eq, Structural)]
pub enum ApiError {
    /// The credential is missing or invalid. Which part of it failed is not told.
    Unauthorized,
    /// The path user id does not pass the ownership guard.
    Forbidden,
    /// The caller owns no task with the requested id.
    NotFound,
    /// The store failed. The cause is not told.
    StoreError,
}

impl ApiError {
    /// The status that reports this failure.
    pub open spec fn spec_status(self) -> Status {
        match self {
            ApiError::Unauthorized => Status::Unauthorized,
            ApiError::Forbidden => Status::Forbidden,
            ApiError::NotFound => Status::NotFound,
            ApiError::StoreError => Status::InternalServerError,
        }
    }

    /// The status that reports this failure.
    pub fn status(&self) -> (status: Status)
        ensures
            status == self.spec_status(),
    {
        match self {
            ApiError::Unauthorized => Status::Unauthorized,
            ApiError::Forbidden => Status::Forbidden,
            ApiError::NotFound => Status::NotFound,
            ApiError::StoreError => Status::InternalServerError,
        }
    }
}

} // verus!
