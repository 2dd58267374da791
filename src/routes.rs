use vstd::prelude::*;

use crate::error::AppError;

verus! {

broadcast use vstd::string::group_string_axioms;

/// Paths that can be reached without a token.
pub open spec fn unprotected_path(p: Seq<char>) -> bool {
    p == "/ping"@ || p == "/tempApiGetOtp"@ || p == "/tempApiGetToken"@ || p == "/user/login"@
}

/// Paths that only an administrator can reach.
pub open spec fn admin_only_path(p: Seq<char>) -> bool {
    p == "/admin/login"@
}

/// Whether two texts hold the same characters.
pub fn same_text(a: &str, b: &str) -> (r: bool)
    ensures
        r == (a@ == b@),
{
    let n = a.unicode_len();
    if n != b.unicode_len() {
        return false;
    }
    let mut i: usize = 0;
    while i < n
        invariant
            n == a@.len(),
            n == b@.len(),
            i <= n,
            forall|j: int| 0 <= j < i ==> a@[j] == b@[j],
        decreases n - i,
    {
        if a.get_char(i) != b.get_char(i) {
            return false;
        }
        i = i + 1;
    }
    assert(a@ =~= b@);
    true
}

pub fn is_unprotected_path(path: &str) -> (r: bool)
    ensures
        r == unprotected_path(path@),
{
    same_text(path, "/ping") || same_text(path, "/tempApiGetOtp") || same_text(path, "/tempApiGetToken")
        || same_text(path, "/user/login")
}

pub fn is_admin_only_path(path: &str) -> (r: bool)
    ensures
        r == admin_only_path(path@),
{
    same_text(path, "/admin/login")
}

/// A path that needs no token.
pub fn get_an_unprotected_path() -> (r: &'static str)
    ensures
        unprotected_path(r@),
{
    "/ping"
}

/// A path that only an administrator can reach.
pub fn get_an_admin_path() -> (r: &'static str)
    ensures
        admin_only_path(r@),
{
    "/admin/login"
}

/// What the bearer token of a request turned out to be.
#[derive(Debug)]
pub enum TokenCheck {
    /// The request carries no token.
    Missing,
    /// The token did not decode; the decoder's message.
    Invalid(String),
    /// The token decoded to claims with this admin flag.
    Valid { is_admin: bool },
}

/// Whether a request may go on.
#[derive(Debug)]
pub enum AuthDecision {
    /// Go on; `with_claims` when the decoded claims go with the request.
    Allow { with_claims: bool },
    /// Answer with this error.
    Reject(AppError),
}

/// Whether a path needs a valid token.
pub open spec fn needs_token(p: Seq<char>) -> bool {
    admin_only_path(p) || !unprotected_path(p)
}

/// Decides whether a request for `path` may go on, given its token. A path
/// that needs a token rejects a missing or invalid one; an admin-only path
/// also rejects a valid token without the admin flag.
pub fn authorize(path: &str, token: TokenCheck) -> (r: AuthDecision)
    ensures
        match token {
            TokenCheck::Missing => if needs_token(path@) {
                r matches AuthDecision::Reject(e) && e is Auth && e.message() == "missing token"@
            } else {
                r == AuthDecision::Allow { with_claims: false }
            },
            TokenCheck::Invalid(m) => if needs_token(path@) {
                r matches AuthDecision::Reject(e) && e is Auth && e.message() == m@
            } else {
                r == AuthDecision::Allow { with_claims: false }
            },
            TokenCheck::Valid { is_admin } => if admin_only_path(path@) && !is_admin {
                r matches AuthDecision::Reject(e) && e is Auth && e.message() == "Unauthorized for ADMIN ONLY path"@
            } else {
                r == AuthDecision::Allow { with_claims: true }
            },
        },
{
    let admin_only = is_admin_only_path(path);
    let needs = admin_only || !is_unprotected_path(path);
    match token {
        TokenCheck::Missing => {
            if needs {
                AuthDecision::Reject(AppError::Auth(String::from_str("missing token")))
            } else {
                AuthDecision::Allow { with_claims: false }
            }
        },
        TokenCheck::Invalid(m) => {
            if needs {
                AuthDecision::Reject(AppError::Auth(m))
            } else {
                AuthDecision::Allow { with_claims: false }
            }
        },
        TokenCheck::Valid { is_admin } => {
            if admin_only && !is_admin {
                AuthDecision::Reject(AppError::Auth(String::from_str("Unauthorized for ADMIN ONLY path")))
            } else {
                AuthDecision::Allow { with_claims: true }
            }
        },
    }
}

} // verus!
