use vstd::prelude::*;

use crate::error::AppError;

verus! {

/// Request to open an add-balance transaction.
#[derive(Debug, Clone, Copy, PartialEq, Eq, Structural)]
pub struct AddBalInitReq {
    pub amount: u64,
}

/// Request to finish an add-balance transaction: the outcome of the payment.
#[derive(Debug)]
pub struct AddBalEndReq {
    pub amount: u64,
    pub transaction_id: u64,
    pub is_successful: bool,
    pub error_reason: Option<String>,
    pub tracking_id: Option<String>,
}

/// Answer to an opened add-balance transaction.
#[derive(Debug)]
pub struct AddBalInitRes {
    pub success: bool,
    pub transaction_id: u64,
    pub app_upi_id: String,
}

/// Response for both success and failure: a flag and a message.
#[derive(Debug)]
pub struct GenericResponse {
    pub success: bool,
    pub message: String,
}

/// How many records an update matched and changed.
#[derive(Debug)]
pub struct UpdateResult {
    pub matched_count: u64,
    pub modified_count: u64,
    pub upserted_id: Option<String>,
}

/// What a token says about its bearer.
#[derive(Debug)]
pub struct JwtClaims {
    pub id: u32,
    pub name: Option<String>,
    pub is_admin: bool,
    pub exp: usize,
}

/// An amount is accepted when it is at least one.
pub open spec fn amount_valid(amount: u64) -> bool {
    amount >= 1
}

/// A failed payment must say why.
pub open spec fn end_req_complete(is_successful: bool, error_reason: Option<String>) -> bool {
    is_successful || error_reason is Some
}

impl GenericResponse {
    pub fn new(success: bool, message: &str) -> (r: GenericResponse)
        ensures
            r.success == success,
            r.message@ == message@,
    {
        GenericResponse { success, message: message.to_owned() }
    }
}

impl JwtClaims {
    pub fn new(id: u32, name: Option<String>, is_admin: bool, exp: usize) -> (r: JwtClaims)
        ensures
            r == (JwtClaims { id, name, is_admin, exp }),
    {
        JwtClaims { id, name, is_admin, exp }
    }
}

impl UpdateResult {
    pub fn new(matched_count: u64, modified_count: u64, upserted_id: Option<String>) -> (r: UpdateResult)
        ensures
            r.matched_count == matched_count,
            r.modified_count == modified_count,
            r.upserted_id == upserted_id,
    {
        UpdateResult { matched_count, modified_count, upserted_id }
    }
}

/// Checks an amount: it must be at least one.
pub fn check_amount(amount: u64) -> (r: Result<(), AppError>)
    ensures
        r is Ok <==> amount_valid(amount),
        r matches Err(e) ==> e is BadRequest && e.message() == "amount must be at least 1"@,
{
    if amount >= 1 {
        Ok(())
    } else {
        Err(AppError::BadRequest(String::from_str("amount must be at least 1")))
    }
}

/// Checks that a failed payment says why.
pub fn check_failure_reason(is_successful: bool, error_reason: &Option<String>) -> (r: Result<(), AppError>)
    ensures
        r is Ok <==> end_req_complete(is_successful, *error_reason),
        r matches Err(e) ==> e is BadRequest && e.message() == "errorReason is required for failed transaction"@,
{
    if !is_successful && error_reason.is_none() {
        return Err(AppError::BadRequest(String::from_str("errorReason is required for failed transaction")));
    }
    Ok(())
}

impl AddBalInitReq {
    /// Checks the fields: the amount must be at least one.
    pub fn validate(&self) -> (r: Result<(), AppError>)
        ensures
            r is Ok <==> amount_valid(self.amount),
            r matches Err(e) ==> e is BadRequest && e.message() == "amount must be at least 1"@,
    {
        check_amount(self.amount)
    }
}

impl AddBalEndReq {
    /// Checks the fields: the amount must be at least one.
    pub fn validate(&self) -> (r: Result<(), AppError>)
        ensures
            r is Ok <==> amount_valid(self.amount),
            r matches Err(e) ==> e is BadRequest && e.message() == "amount must be at least 1"@,
    {
        check_amount(self.amount)
    }

    /// Checks the rule between fields: a failed payment needs an error reason.
    pub fn validate_extra(&self) -> (r: Result<(), AppError>)
        ensures
            r is Ok <==> end_req_complete(self.is_successful, self.error_reason),
            r matches Err(e) ==> e is BadRequest && e.message()
                == "errorReason is required for failed transaction"@,
    {
        check_failure_reason(self.is_successful, &self.error_reason)
    }
}

} // verus!
