use vstd::prelude::*;

use crate::error::AppError;
use crate::money::Money;
use crate::text::money_text;
use crate::transaction::WalletTransaction;
use crate::wallet::{check_delta, delta_consistent, StoreError};

verus! {

/// What the checks on a reported payment outcome found.
#[derive(Clone, Copy, Debug, PartialEq, Eq, Structural)]
pub enum EndCheck {
    /// No pending transaction matched.
    NotFound,
    /// The reported amount is not the recorded one.
    AmountMismatch,
    /// The wallet moved since the transaction was opened.
    BalanceMismatch,
    /// Everything agrees.
    Pass,
}

/// The checks, in order, on a reported outcome against the pending record
/// (if one matched) and the user's current balance.
pub open spec fn end_check(amount: u64, pending: Option<WalletTransaction>, balance: Money) -> EndCheck {
    match pending {
        None => EndCheck::NotFound,
        Some(t) => if t.amount != (Money { real: amount, bonus: 0 }) {
            EndCheck::AmountMismatch
        } else if balance != t.balance_before {
            EndCheck::BalanceMismatch
        } else {
            EndCheck::Pass
        },
    }
}

/// The message when the balance moved since the transaction was opened.
pub open spec fn balance_mismatch_text(balance: Money, recorded: Money) -> Seq<char> {
    "user balance "@ + money_text(balance) + " does not match with transaction balanceBefore "@
        + money_text(recorded)
}

/// What to do with a reported payment outcome.
#[derive(Debug)]
pub enum EndVerdict {
    /// Go on and apply the outcome.
    Proceed,
    /// Answer with this error and change nothing.
    Reject(AppError),
    /// Mark the transaction failed, then answer with this error.
    MarkFailedAndReject(AppError),
}

/// The rules that the add-balance protocol applies to wallet records.
pub struct WalletHelpers;

/// Access to the helpers of each kind.
pub struct Helpers {
    wallet_helpers: WalletHelpers,
}

impl WalletHelpers {
    pub fn new() -> (r: WalletHelpers) {
        WalletHelpers
    }

    /// Decides on a reported outcome for `amount`, given the pending record that
    /// matched its id, user and type (if any) and the user's current balance.
    pub fn validate_add_bal_transaction(
        &self,
        amount: u64,
        pending: Option<&WalletTransaction>,
        user_balance: Money,
    ) -> (r: EndVerdict)
        ensures
            ({
                let found = match pending {
                    Some(t) => Some(*t),
                    None => None,
                };
                match end_check(amount, found, user_balance) {
                    EndCheck::NotFound => r matches EndVerdict::Reject(e) && e is NotFound && e.message()
                        == "transaction not found"@,
                    EndCheck::AmountMismatch => r matches EndVerdict::Reject(e) && e is BadRequest
                        && e.message() == "amount do not match"@,
                    EndCheck::BalanceMismatch => r matches EndVerdict::MarkFailedAndReject(e)
                        && e is BadRequest && e.message() == balance_mismatch_text(
                        user_balance,
                        found.unwrap().balance_before,
                    ),
                    EndCheck::Pass => r is Proceed,
                }
            }),
    {
        let t = match pending {
            None => return EndVerdict::Reject(AppError::NotFound(String::from_str("transaction not found"))),
            Some(t) => t,
        };
        if t.amount() != Money::new(amount, 0) {
            return EndVerdict::Reject(AppError::BadRequest(String::from_str("amount do not match")));
        }
        if user_balance != t.balance_before() {
            let msg = String::from_str("user balance ").concat(user_balance.describe().as_str());
            let msg = msg.concat(" does not match with transaction balanceBefore ");
            let msg = msg.concat(t.balance_before().describe().as_str());
            return EndVerdict::MarkFailedAndReject(AppError::BadRequest(msg));
        }
        EndVerdict::Proceed
    }

    /// Checks a wallet update made in a session: `after` must be `before`
    /// moved by exactly `(real_amt, bonus_amt)`.
    pub fn update_wallet_with_session(
        &self,
        before: Money,
        after: Money,
        real_amt: u64,
        bonus_amt: u64,
        subtract: bool,
    ) -> (r: Result<(Money, Money), StoreError>)
        ensures
            r is Ok <==> delta_consistent(before, after, real_amt, bonus_amt, subtract),
            r matches Ok(p) ==> p == (before, after),
            r matches Err(e) ==> e == (StoreError::ConsistencyViolation { before, after }),
    {
        check_delta(before, after, real_amt, bonus_amt, subtract)
    }
}

impl Helpers {
    pub fn new() -> (r: Helpers) {
        Helpers { wallet_helpers: WalletHelpers::new() }
    }

    pub fn with_mock_wallet_helpers(wallet_helpers: WalletHelpers) -> (r: Helpers) {
        Helpers { wallet_helpers }
    }

    pub fn wallet_helpers(&self) -> (r: &WalletHelpers) {
        &self.wallet_helpers
    }
}

} // verus!
