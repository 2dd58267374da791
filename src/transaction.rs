use vstd::prelude::*;

use crate::money::Money;

verus! {

/// Where a wallet transaction stands: created `Pending`, then finished once,
/// as `Completed` or as `Error`.
#[derive(Clone, Copy, Debug, PartialEq, Eq, Structural)]
pub enum WalletTransactionStatus {
    Pending,
    Completed,
    Error,
}

/// What a wallet transaction does.
#[derive(Clone, Copy, Debug, PartialEq, Eq, Structural)]
pub enum WalletTransactionType {
    AddBalance,
}

/// The record of one attempt to change a wallet's balance.
#[derive(Debug)]
pub struct WalletTransaction {
    pub user_id: u32,
    pub transaction_type: WalletTransactionType,
    pub status: WalletTransactionStatus,
    pub amount: Money,
    pub balance_before: Money,
    pub balance_after: Option<Money>,
    pub tracking_id: Option<String>,
    pub error_reason: Option<String>,
    pub updated_by: Option<u32>,
    pub created_ts: u64,
    pub updated_ts: u64,
}

/// The pending record that opens an add-balance transaction.
pub open spec fn spec_add_bal_init_trans(user_id: u32, amount: u64, balance_before: Money, ts: u64) -> WalletTransaction {
    WalletTransaction {
        user_id,
        transaction_type: WalletTransactionType::AddBalance,
        status: WalletTransactionStatus::Pending,
        amount: Money { real: amount, bonus: 0 },
        balance_before,
        balance_after: None,
        tracking_id: None,
        error_reason: None,
        updated_by: None,
        created_ts: ts,
        updated_ts: ts,
    }
}

/// A record after it was marked failed.
pub open spec fn spec_failed(
    t: WalletTransaction,
    user_id: u32,
    error_reason: Option<String>,
    tracking_id: Option<String>,
    ts: u64,
) -> WalletTransaction {
    WalletTransaction {
        status: WalletTransactionStatus::Error,
        error_reason,
        tracking_id,
        updated_by: Some(user_id),
        updated_ts: ts,
        ..t
    }
}

/// A record after it was marked completed.
pub open spec fn spec_completed(
    t: WalletTransaction,
    balance_after: Money,
    tracking_id: Option<String>,
    ts: u64,
) -> WalletTransaction {
    WalletTransaction {
        status: WalletTransactionStatus::Completed,
        balance_after: Some(balance_after),
        tracking_id,
        updated_ts: ts,
        ..t
    }
}

/// A copy of an optional text.
pub fn copy_text(t: &Option<String>) -> (r: Option<String>)
    ensures
        r == *t,
{
    match t {
        Some(s) => Some(s.clone()),
        None => None,
    }
}

impl WalletTransaction {
    /// The pending record of an add-balance of `amount` real money, with the
    /// balance seen when it was opened.
    pub fn add_bal_init_trans(user_id: u32, amount: u64, balance_before: Money, ts: u64) -> (r: WalletTransaction)
        ensures
            r == spec_add_bal_init_trans(user_id, amount, balance_before, ts),
    {
        WalletTransaction {
            user_id,
            transaction_type: WalletTransactionType::AddBalance,
            status: WalletTransactionStatus::Pending,
            amount: Money::new(amount, 0),
            balance_before,
            balance_after: None,
            tracking_id: None,
            error_reason: None,
            updated_by: None,
            created_ts: ts,
            updated_ts: ts,
        }
    }

    pub fn amount(&self) -> (r: Money)
        ensures
            r == self.amount,
    {
        self.amount
    }

    pub fn balance_before(&self) -> (r: Money)
        ensures
            r == self.balance_before,
    {
        self.balance_before
    }

    /// A field-by-field copy.
    pub fn duplicate(&self) -> (r: WalletTransaction)
        ensures
            r == *self,
    {
        WalletTransaction {
            user_id: self.user_id,
            transaction_type: self.transaction_type,
            status: self.status,
            amount: self.amount,
            balance_before: self.balance_before,
            balance_after: self.balance_after,
            tracking_id: copy_text(&self.tracking_id),
            error_reason: copy_text(&self.error_reason),
            updated_by: self.updated_by,
            created_ts: self.created_ts,
            updated_ts: self.updated_ts,
        }
    }
}

} // verus!
