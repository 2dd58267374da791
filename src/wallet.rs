use vstd::prelude::*;

use crate::money::{clamped_sub, Money};

verus! {

/// Why a wallet update did not take place.
#[derive(Clone, Copy, Debug, PartialEq, Eq, Structural)]
pub enum StoreError {
    /// No wallet matched the update's filter, or the new balance would not fit.
    UpdateFailed,
    /// The balance read back after an update is not the balance read before it
    /// moved by the requested delta.
    ConsistencyViolation { before: Money, after: Money },
}

/// One wallet document: the balance of one user.
#[derive(Clone, Copy, Debug, PartialEq, Eq, Structural)]
pub struct Wallet {
    pub user_id: u32,
    pub balance: Money,
    pub withdrawable: u64,
    pub created_ts: u64,
    pub updated_ts: u64,
}

impl Wallet {
    /// The withdrawable part never exceeds the real_amt balance.
    pub open spec fn wf(&self) -> bool {
        self.withdrawable <= self.balance.real
    }
}

/// The balance of a wallet that may not exist yet: zero when it does not.
pub open spec fn balance_of(w: Option<Wallet>) -> Money {
    match w {
        Some(w) => w.balance,
        None => Money { real: 0, bonus: 0 },
    }
}

/// A credit succeeds when the incremented balance still fits.
pub open spec fn credit_fits(w: Option<Wallet>, real_amt: u64, bonus_amt: u64) -> bool {
    balance_of(w).real + real_amt <= u64::MAX && balance_of(w).bonus + bonus_amt <= u64::MAX
}

/// The wallet after a credit: balances and, if granted, the withdrawable part
/// grow; the creation time is set only when the wallet is created.
pub open spec fn spec_credit(
    w: Option<Wallet>,
    user_id: u32,
    real_amt: u64,
    bonus_amt: u64,
    grant_withdrawable: bool,
    ts: u64,
) -> Wallet {
    let grant: int = if grant_withdrawable {
        real_amt as int
    } else {
        0
    };
    match w {
        Some(w) => Wallet {
            user_id,
            balance: Money {
                real: (w.balance.real + real_amt) as u64,
                bonus: (w.balance.bonus + bonus_amt) as u64,
            },
            withdrawable: (w.withdrawable + grant) as u64,
            created_ts: w.created_ts,
            updated_ts: ts,
        },
        None => Wallet {
            user_id,
            balance: Money { real: real_amt, bonus: bonus_amt },
            withdrawable: grant as u64,
            created_ts: ts,
            updated_ts: ts,
        },
    }
}

/// A debit only matches an existing wallet that holds at least the amount in
/// both parts.
pub open spec fn debit_matches(w: Option<Wallet>, real_amt: u64, bonus_amt: u64) -> bool {
    &&& w is Some
    &&& w.unwrap().balance.real >= real_amt
    &&& w.unwrap().balance.bonus >= bonus_amt
}

/// The wallet after a debit: each part drops, stopping at zero, and the
/// withdrawable part is then held to the new real_amt balance.
pub open spec fn spec_debit(w: Wallet, real_amt: u64, bonus_amt: u64, reduce_withdrawable: bool, ts: u64) -> Wallet {
    let new_real = clamped_sub(w.balance.real, real_amt);
    let wd = if reduce_withdrawable {
        clamped_sub(w.withdrawable, real_amt)
    } else {
        w.withdrawable
    };
    Wallet {
        user_id: w.user_id,
        balance: Money { real: new_real, bonus: clamped_sub(w.balance.bonus, bonus_amt) },
        withdrawable: if wd > new_real {
            new_real
        } else {
            wd
        },
        created_ts: w.created_ts,
        updated_ts: ts,
    }
}

/// Whether `after` is `before` moved by `(real_amt, bonus_amt)`: taken away, stopping
/// at zero, when `subtract`, else added.
pub open spec fn delta_consistent(before: Money, after: Money, real_amt: u64, bonus_amt: u64, subtract: bool) -> bool {
    if subtract {
        after == before.spec_subtract(Money { real: real_amt, bonus: bonus_amt })
    } else {
        after.real == before.real + real_amt && after.bonus == before.bonus + bonus_amt
    }
}

/// Credits a wallet, creating it when `w` is `None`.
pub fn credit_wallet(
    w: Option<Wallet>,
    user_id: u32,
    real_amt: u64,
    bonus_amt: u64,
    grant_withdrawable: bool,
    ts: u64,
) -> (r: Result<Wallet, StoreError>)
    requires
        w matches Some(x) ==> x.wf(),
    ensures
        r is Ok <==> credit_fits(w, real_amt, bonus_amt),
        r matches Ok(x) ==> x == spec_credit(w, user_id, real_amt, bonus_amt, grant_withdrawable, ts) && x.wf(),
        r matches Err(e) ==> e == StoreError::UpdateFailed,
{
    let grant: u64 = if grant_withdrawable {
        real_amt
    } else {
        0
    };
    match w {
        Some(w) => {
            if w.balance.real > u64::MAX - real_amt || w.balance.bonus > u64::MAX - bonus_amt {
                return Err(StoreError::UpdateFailed);
            }
            Ok(
                Wallet {
                    user_id,
                    balance: Money { real: w.balance.real + real_amt, bonus: w.balance.bonus + bonus_amt },
                    withdrawable: w.withdrawable + grant,
                    created_ts: w.created_ts,
                    updated_ts: ts,
                },
            )
        },
        None => Ok(
            Wallet {
                user_id,
                balance: Money { real: real_amt, bonus: bonus_amt },
                withdrawable: grant,
                created_ts: ts,
                updated_ts: ts,
            },
        ),
    }
}

/// Debits a wallet. Fails, changing nothing, unless the wallet exists and
/// holds at least `real_amt` and `bonus_amt`.
pub fn debit_wallet(
    w: Option<Wallet>,
    real_amt: u64,
    bonus_amt: u64,
    reduce_withdrawable: bool,
    ts: u64,
) -> (r: Result<Wallet, StoreError>)
    requires
        w matches Some(x) ==> x.wf(),
    ensures
        r is Ok <==> debit_matches(w, real_amt, bonus_amt),
        r matches Ok(x) ==> x == spec_debit(w.unwrap(), real_amt, bonus_amt, reduce_withdrawable, ts) && x.wf(),
        r matches Err(e) ==> e == StoreError::UpdateFailed,
{
    match w {
        None => Err(StoreError::UpdateFailed),
        Some(w) => {
            if w.balance.real < real_amt || w.balance.bonus < bonus_amt {
                return Err(StoreError::UpdateFailed);
            }
            let new_balance = w.balance.subtract(Money::new(real_amt, bonus_amt));
            let wd: u64 = if reduce_withdrawable {
                if w.withdrawable >= real_amt {
                    w.withdrawable - real_amt
                } else {
                    0
                }
            } else {
                w.withdrawable
            };
            let withdrawable: u64 = if wd > new_balance.real {
                new_balance.real
            } else {
                wd
            };
            Ok(
                Wallet {
                    user_id: w.user_id,
                    balance: new_balance,
                    withdrawable,
                    created_ts: w.created_ts,
                    updated_ts: ts,
                },
            )
        },
    }
}

/// Checks the balance read back after an update against the balance read
/// before it. A mismatch means a stale read or a lost update.
pub fn check_delta(before: Money, after: Money, real_amt: u64, bonus_amt: u64, subtract: bool) -> (r: Result<
    (Money, Money),
    StoreError,
>)
    ensures
        r is Ok <==> delta_consistent(before, after, real_amt, bonus_amt, subtract),
        r matches Ok(p) ==> p == (before, after),
        r matches Err(e) ==> e == (StoreError::ConsistencyViolation { before, after }),
{
    let consistent = if subtract {
        after == before.subtract(Money::new(real_amt, bonus_amt))
    } else {
        after.real >= real_amt && after.real - real_amt == before.real && after.bonus >= bonus_amt && after.bonus
            - bonus_amt == before.bonus
    };
    if consistent {
        Ok((before, after))
    } else {
        Err(StoreError::ConsistencyViolation { before, after })
    }
}

/// Crediting an amount and then debiting the same amount gives back the
/// balance from before the credit.
pub proof fn lemma_credit_then_debit(
    w: Option<Wallet>,
    user_id: u32,
    real_amt: u64,
    bonus_amt: u64,
    grant_withdrawable: bool,
    reduce_withdrawable: bool,
    ts1: u64,
    ts2: u64,
)
    requires
        credit_fits(w, real_amt, bonus_amt),
    ensures
        debit_matches(Some(spec_credit(w, user_id, real_amt, bonus_amt, grant_withdrawable, ts1)), real_amt, bonus_amt),
        spec_debit(spec_credit(w, user_id, real_amt, bonus_amt, grant_withdrawable, ts1), real_amt, bonus_amt, reduce_withdrawable, ts2).balance
            == balance_of(w),
{
}

/// A debit of more than the real_amt balance never matches.
pub proof fn lemma_overdraw_fails(w: Option<Wallet>, real_amt: u64, bonus_amt: u64)
    requires
        real_amt > balance_of(w).real,
    ensures
        !debit_matches(w, real_amt, bonus_amt),
{
}

} // verus!
