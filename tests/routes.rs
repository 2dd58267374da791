use treatviewers_backend::routes::{
    authorize, get_an_admin_path, get_an_unprotected_path, is_admin_only_path, is_unprotected_path, same_text,
    AuthDecision, TokenCheck,
};

#[test]
fn path_lists() {
    assert!(is_unprotected_path("/ping"));
    assert!(is_unprotected_path("/user/login"));
    assert!(!is_unprotected_path("/admin/login"));
    assert!(!is_unprotected_path("/ping/"));
    assert!(is_admin_only_path("/admin/login"));
    assert!(!is_admin_only_path("/user/login"));
    assert!(is_unprotected_path(get_an_unprotected_path()));
    assert!(is_admin_only_path(get_an_admin_path()));
    assert!(same_text("abc", "abc"));
    assert!(!same_text("abc", "abd"));
    assert!(!same_text("ab", "abc"));
}

fn rejected(d: AuthDecision) -> (u16, String) {
    match d {
        AuthDecision::Reject(e) => (e.status_code(), e.response_message()),
        other => panic!("{:?}", other),
    }
}

#[test]
fn test_auth_middleware_unprotected_path() {
    let unprotected_path = get_an_unprotected_path();
    // no token passed
    assert!(matches!(authorize(unprotected_path, TokenCheck::Missing), AuthDecision::Allow { with_claims: false }));
    // valid token passed: the claims go with the request
    assert!(matches!(
        authorize(unprotected_path, TokenCheck::Valid { is_admin: false }),
        AuthDecision::Allow { with_claims: true }
    ));
    // a bad token does not stop an unprotected path
    assert!(matches!(
        authorize(unprotected_path, TokenCheck::Invalid("Invalid token".to_owned())),
        AuthDecision::Allow { with_claims: false }
    ));
}

#[test]
fn test_auth_middleware_unprotected_path_no_token_claim_extractor() {
    // no token: the request goes on without claims
    let unprotected_path = get_an_unprotected_path();
    match authorize(unprotected_path, TokenCheck::Missing) {
        AuthDecision::Allow { with_claims } => assert!(!with_claims),
        other => panic!("{:?}", other),
    }
}

#[test]
fn test_auth_middleware_protected_path() {
    let protected_path = "/protected_path";
    assert!(matches!(
        authorize(protected_path, TokenCheck::Valid { is_admin: false }),
        AuthDecision::Allow { with_claims: true }
    ));
    assert_eq!(rejected(authorize(protected_path, TokenCheck::Missing)), (401, "missing token".to_owned()));
    assert_eq!(
        rejected(authorize(protected_path, TokenCheck::Invalid("Invalid token".to_owned()))),
        (401, "Invalid token".to_owned())
    );
}

#[test]
fn test_auth_middleware_admin_path() {
    let admin_path = get_an_admin_path();
    assert_eq!(rejected(authorize(admin_path, TokenCheck::Missing)), (401, "missing token".to_owned()));
    assert_eq!(
        rejected(authorize(admin_path, TokenCheck::Invalid("Invalid token".to_owned()))),
        (401, "Invalid token".to_owned())
    );
    assert_eq!(
        rejected(authorize(admin_path, TokenCheck::Valid { is_admin: false })),
        (401, "Unauthorized for ADMIN ONLY path".to_owned())
    );
    assert!(matches!(
        authorize(admin_path, TokenCheck::Valid { is_admin: true }),
        AuthDecision::Allow { with_claims: true }
    ));
}
