use treatviewers_backend::ledger::WalletLedger;
use treatviewers_backend::money::Money;
use treatviewers_backend::wallet::{check_delta, credit_wallet, debit_wallet, StoreError, Wallet};

fn wallet(real: u64, bonus: u64, withdrawable: u64) -> Wallet {
    Wallet { user_id: 1, balance: Money::new(real, bonus), withdrawable, created_ts: 5, updated_ts: 5 }
}

#[test]
fn credit_creates_missing_wallet() {
    let w = credit_wallet(None, 9, 10, 2, true, 100).unwrap();
    assert_eq!(w, Wallet { user_id: 9, balance: Money::new(10, 2), withdrawable: 10, created_ts: 100, updated_ts: 100 });
}

#[test]
fn credit_keeps_creation_time_and_grants_withdrawable_on_request() {
    let w = credit_wallet(Some(wallet(5, 1, 3)), 1, 10, 2, false, 100).unwrap();
    assert_eq!(w, Wallet { user_id: 1, balance: Money::new(15, 3), withdrawable: 3, created_ts: 5, updated_ts: 100 });
    let w = credit_wallet(Some(wallet(5, 1, 3)), 1, 10, 2, true, 100).unwrap();
    assert_eq!(w.withdrawable, 13);
}

#[test]
fn credit_that_would_overflow_fails() {
    let r = credit_wallet(Some(wallet(u64::MAX, 0, 0)), 1, 1, 0, false, 100);
    assert_eq!(r, Err(StoreError::UpdateFailed));
}

#[test]
fn debit_clamps_withdrawable_to_real_balance() {
    let w = debit_wallet(Some(wallet(10, 5, 10)), 4, 5, false, 100).unwrap();
    assert_eq!(w, Wallet { user_id: 1, balance: Money::new(6, 0), withdrawable: 6, created_ts: 5, updated_ts: 100 });
    let w = debit_wallet(Some(wallet(10, 5, 3)), 4, 0, true, 100).unwrap();
    assert_eq!(w.withdrawable, 0);
    assert_eq!(w.balance, Money::new(6, 5));
}

#[test]
fn debit_without_wallet_or_funds_fails() {
    assert_eq!(debit_wallet(None, 1, 0, false, 1), Err(StoreError::UpdateFailed));
    assert_eq!(debit_wallet(Some(wallet(10, 5, 0)), 10, 6, false, 1), Err(StoreError::UpdateFailed));
}

#[test]
fn debit_after_credit_restores_balance() {
    let mut ledger = WalletLedger::new();
    ledger.credit(7, 20, 3, true, 1).unwrap();
    let before = ledger.get_balance(7);
    ledger.credit(7, 15, 4, true, 2).unwrap();
    ledger.debit(7, 15, 4, true, 3).unwrap();
    assert_eq!(ledger.get_balance(7), before);
    assert_eq!(before, Money::new(20, 3));
}

#[test]
fn debit_of_one_more_than_balance_fails_and_changes_nothing() {
    let mut ledger = WalletLedger::new();
    ledger.credit(7, 20, 3, true, 1).unwrap();
    let r = ledger.debit(7, 21, 0, false, 2);
    assert_eq!(r, Err(StoreError::UpdateFailed));
    assert_eq!(ledger.wallet(7).unwrap(), Wallet { user_id: 7, balance: Money::new(20, 3), withdrawable: 20, created_ts: 1, updated_ts: 1 });
}

#[test]
fn get_balance_of_unknown_user_is_zero() {
    let ledger = WalletLedger::new();
    assert_eq!(ledger.get_balance(42), Money::new(0, 0));
    assert_eq!(ledger.wallet(42), None);
}

#[test]
fn apply_delta_returns_before_and_after() {
    let mut ledger = WalletLedger::new();
    assert_eq!(ledger.apply_delta(3, 10, 2, false, false, 1), Ok((Money::new(0, 0), Money::new(10, 2))));
    assert_eq!(ledger.apply_delta(3, 4, 5, true, false, 2), Err(StoreError::UpdateFailed));
    assert_eq!(ledger.apply_delta(3, 4, 2, true, false, 2), Ok((Money::new(10, 2), Money::new(6, 0))));
    assert_eq!(ledger.get_balance(3), Money::new(6, 0));
}

#[test]
fn check_delta_flags_inconsistent_after_balance() {
    let before = Money::new(10, 2);
    assert_eq!(check_delta(before, Money::new(15, 2), 5, 0, false), Ok((before, Money::new(15, 2))));
    assert_eq!(check_delta(before, Money::new(5, 0), 5, 3, true), Ok((before, Money::new(5, 0))));
    assert_eq!(
        check_delta(before, Money::new(14, 2), 5, 0, false),
        Err(StoreError::ConsistencyViolation { before, after: Money::new(14, 2) })
    );
    assert_eq!(
        check_delta(before, Money::new(5, 2), 5, 3, true),
        Err(StoreError::ConsistencyViolation { before, after: Money::new(5, 2) })
    );
}
