use vstd::prelude::*;

use crate::text::money_text;
use crate::wallet::StoreError;

verus! {

/// The errors that the engine reports to its callers, each with a message.
#[derive(Debug)]
pub enum AppError {
    /// Malformed or rule-breaking input.
    BadRequest(String),
    /// No matching pending transaction or entity.
    NotFound(String),
    /// Missing or rejected credentials.
    Auth(String),
    /// Anything else, reported as an internal failure.
    AnyError(String),
}

/// The message of a store failure.
pub open spec fn store_error_text(e: StoreError) -> Seq<char> {
    match e {
        StoreError::UpdateFailed => "not able to update wallet"@,
        StoreError::ConsistencyViolation { before, after } => "balance_before "@ + money_text(before)
            + " and balance_after "@ + money_text(after) + " not matching"@,
    }
}

impl AppError {
    pub fn unknown_error() -> (r: AppError)
        ensures
            r matches AppError::AnyError(m) && m@ == "Unknown error"@,
    {
        AppError::AnyError(String::from_str("Unknown error"))
    }

    /// The message that the error carries.
    pub open spec fn message(&self) -> Seq<char> {
        match self {
            AppError::BadRequest(m) => m@,
            AppError::NotFound(m) => m@,
            AppError::Auth(m) => m@,
            AppError::AnyError(m) => m@,
        }
    }

    /// The HTTP status code that the error is answered with.
    pub fn status_code(&self) -> (r: u16)
        ensures
            self is BadRequest ==> r == 400,
            self is NotFound ==> r == 404,
            self is Auth ==> r == 401,
            self is AnyError ==> r == 500,
    {
        match self {
            AppError::BadRequest(_) => 400,
            AppError::NotFound(_) => 404,
            AppError::Auth(_) => 401,
            AppError::AnyError(_) => 500,
        }
    }

    /// The message shown to the client: internal failures are prefixed with
    /// `Something went wrong: `.
    pub fn response_message(&self) -> (r: String)
        ensures
            self is AnyError ==> r@ == "Something went wrong: "@ + self.message(),
            !(self is AnyError) ==> r@ == self.message(),
    {
        match self {
            AppError::AnyError(m) => String::from_str("Something went wrong: ").concat(m.as_str()),
            AppError::BadRequest(m) => m.clone(),
            AppError::NotFound(m) => m.clone(),
            AppError::Auth(m) => m.clone(),
        }
    }
}

impl AppError {
    /// A store failure, reported as an internal failure.
    pub fn from_store(e: StoreError) -> (r: AppError)
        ensures
            r is AnyError,
            r.message() == store_error_text(e),
    {
        match e {
            StoreError::UpdateFailed => AppError::AnyError(String::from_str("not able to update wallet")),
            StoreError::ConsistencyViolation { before, after } => {
                let s = String::from_str("balance_before ").concat(before.describe().as_str());
                let s = s.concat(" and balance_after ").concat(after.describe().as_str());
                AppError::AnyError(s.concat(" not matching"))
            },
        }
    }
}

} // verus!
