use treatviewers_backend::services::{ExternalApi, Utility};
use treatviewers_backend::validators::Validators;

fn takes_external_api(_api: &ExternalApi) {}
fn takes_validators(_v: &Validators) {}
fn takes_utility(_u: &Utility) {}

#[test]
fn test_import_external_api() {
    takes_external_api(&ExternalApi::new());
}

#[test]
fn test_import_validators() {
    takes_validators(&Validators::new());
}

#[test]
fn test_import_utility() {
    takes_utility(&Utility::new());
}
