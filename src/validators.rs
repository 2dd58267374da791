use vstd::prelude::*;

use validator::ValidationError;

use crate::error::AppError;
use vstd::string::StringSliceAdditionalSpecFns;

verus! {

broadcast use vstd::string::group_string_axioms;

#[verifier::external_type_specification]
#[verifier::external_body]
pub struct ExValidationError(ValidationError);

/// Relies on `validator::ValidationError::new` and its public `message`
/// field: builds the error of code `phone` that carries `message`.
#[verifier::external_body]
fn phone_error(message: String) -> (r: ValidationError) {
    let mut err = ValidationError::new("phone");
    err.message = Some(message.into());
    err
}

/// Every character is one of `0` to `9`.
pub open spec fn all_digits(p: Seq<char>) -> bool {
    forall|i: int| 0 <= i < p.len() ==> '0' <= #[trigger] p[i] && p[i] <= '9'
}

/// What is wrong with a phone number, if anything: it must be ten bytes
/// long, and all digits.
pub open spec fn phone_problem_text(phone: &str) -> Option<Seq<char>> {
    if phone.spec_bytes().len() as usize != 10 {
        Some("Phone must be 10 digits. Invalid phone received: "@ + phone@)
    } else if !all_digits(phone@) {
        Some("Phone must be all digits. Invalid phone received: "@ + phone@)
    } else {
        None
    }
}

/// The message that says what is wrong with a phone number, if anything.
pub fn phone_problem(phone: &str) -> (r: Option<String>)
    ensures
        r is Some <==> phone_problem_text(phone) is Some,
        r matches Some(m) ==> m@ == phone_problem_text(phone).unwrap(),
{
    if phone.len() != 10 {
        let m = String::from_str("Phone must be 10 digits. Invalid phone received: ").concat(phone);
        return Some(m);
    }
    let n = phone.unicode_len();
    let mut i: usize = 0;
    while i < n
        invariant
            n == phone@.len(),
            phone.spec_bytes().len() as usize == 10,
            i <= n,
            forall|j: int| 0 <= j < i ==> '0' <= #[trigger] phone@[j] && phone@[j] <= '9',
        decreases n - i,
    {
        let c = phone.get_char(i);
        if !('0' <= c && c <= '9') {
            assert(!all_digits(phone@)) by {
                assert(phone@[i as int] == c);
            }
            let m = String::from_str("Phone must be all digits. Invalid phone received: ").concat(phone);
            return Some(m);
        }
        i = i + 1;
    }
    assert(all_digits(phone@));
    None
}

/// Checks a phone number: ten bytes, all digits.
pub fn validate_phonenumber(phone: &str) -> (r: Result<(), ValidationError>)
    ensures
        r is Ok <==> phone_problem_text(phone) is None,
{
    match phone_problem(phone) {
        Some(m) => Err(phone_error(m)),
        None => Ok(()),
    }
}

/// The checks on request fields that go beyond their types.
pub struct Validators;

impl Validators {
    pub fn new() -> (r: Validators) {
        Validators
    }

    /// Checks a phone number; a bad one is a bad request that says why.
    pub fn validate_phonenumber(&self, phone: &str) -> (r: Result<(), AppError>)
        ensures
            r is Ok <==> phone_problem_text(phone) is None,
            r matches Err(e) ==> e is BadRequest && e.message() == phone_problem_text(phone).unwrap(),
    {
        match phone_problem(phone) {
            Some(m) => Err(AppError::BadRequest(m)),
            None => Ok(()),
        }
    }
}

} // verus!
