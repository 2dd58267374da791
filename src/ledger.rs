use std::collections::HashMap;

use vstd::prelude::*;

use crate::models::UpdateResult;
use crate::money::Money;
use crate::transaction::{
    copy_text, spec_add_bal_init_trans, spec_completed, spec_failed, WalletTransaction,
    WalletTransactionStatus, WalletTransactionType,
};
use crate::wallet::{
    balance_of, check_delta, credit_fits, credit_wallet, debit_matches, debit_wallet,
    delta_consistent, spec_credit, spec_debit, StoreError, Wallet,
};

verus! {

broadcast use vstd::std_specs::hash::group_hash_axioms;

/// What a ledger holds: one wallet per user and the log of transactions, a
/// transaction's id being its position in the log.
pub struct LedgerState {
    pub wallets: Map<u32, Wallet>,
    pub log: Seq<WalletTransaction>,
}

/// The wallet of a user, if one was created.
pub open spec fn wallet_in(wallets: Map<u32, Wallet>, user_id: u32) -> Option<Wallet> {
    if wallets.contains_key(user_id) {
        Some(wallets[user_id])
    } else {
        None
    }
}

/// Each wallet is filed under its own user and keeps its withdrawable part
/// within its real balance.
pub open spec fn ledger_wf(s: LedgerState) -> bool {
    forall|u: u32| #[trigger]
        s.wallets.contains_key(u) ==> s.wallets[u].wf() && s.wallets[u].user_id == u
}

/// Whether the record `id` is a pending transaction of this user and type.
pub open spec fn pending_match(
    log: Seq<WalletTransaction>,
    id: u64,
    user_id: u32,
    ty: WalletTransactionType,
) -> bool {
    &&& id < log.len()
    &&& log[id as int].user_id == user_id
    &&& log[id as int].status == WalletTransactionStatus::Pending
    &&& log[id as int].transaction_type == ty
}

/// The wallets and the transaction log of all users.
pub struct WalletLedger {
    wallets: HashMap<u32, Wallet>,
    log: Vec<WalletTransaction>,
}

impl View for WalletLedger {
    type V = LedgerState;

    closed spec fn view(&self) -> LedgerState {
        LedgerState { wallets: self.wallets@, log: self.log@ }
    }
}

impl WalletLedger {
    pub open spec fn wf(&self) -> bool {
        ledger_wf(self@)
    }

    /// A ledger with no wallet and no transaction.
    pub fn new() -> (r: WalletLedger)
        ensures
            r@.wallets == Map::<u32, Wallet>::empty(),
            r@.log == Seq::<WalletTransaction>::empty(),
            r.wf(),
    {
        WalletLedger { wallets: HashMap::new(), log: Vec::new() }
    }

    /// The wallet of a user, if one was created.
    pub fn wallet(&self, user_id: u32) -> (r: Option<Wallet>)
        ensures
            r == wallet_in(self@.wallets, user_id),
    {
        match self.wallets.get(&user_id) {
            Some(w) => Some(*w),
            None => None,
        }
    }

    /// The balance of a user: zero when the user has no wallet yet.
    pub fn get_balance(&self, user_id: u32) -> (r: Money)
        ensures
            r == balance_of(wallet_in(self@.wallets, user_id)),
    {
        match self.wallets.get(&user_id) {
            Some(w) => w.balance,
            None => Money::new(0, 0),
        }
    }

    /// The number of transactions recorded.
    pub fn transaction_count(&self) -> (r: usize)
        ensures
            r == self@.log.len(),
    {
        self.log.len()
    }

    /// The transaction with this id, whatever its state.
    pub fn transaction(&self, id: u64) -> (r: Option<&WalletTransaction>)
        ensures
            id < self@.log.len() ==> r == Some(&self@.log[id as int]),
            id >= self@.log.len() ==> r is None,
    {
        if id < self.log.len() as u64 {
            Some(&self.log[id as usize])
        } else {
            None
        }
    }

    /// Credits a user's wallet, creating it on first credit; the withdrawable
    /// part grows by `real_amt` when `grant_withdrawable`. Returns the wallet
    /// after the update.
    pub fn credit(
        &mut self,
        user_id: u32,
        real_amt: u64,
        bonus_amt: u64,
        grant_withdrawable: bool,
        ts: u64,
    ) -> (r: Result<Wallet, StoreError>)
        requires
            old(self).wf(),
        ensures
            final(self).wf(),
            final(self)@.log == old(self)@.log,
            r is Ok <==> credit_fits(wallet_in(old(self)@.wallets, user_id), real_amt, bonus_amt),
            r matches Ok(w) ==> {
                &&& w == spec_credit(
                    wallet_in(old(self)@.wallets, user_id),
                    user_id,
                    real_amt,
                    bonus_amt,
                    grant_withdrawable,
                    ts,
                )
                &&& final(self)@.wallets == old(self)@.wallets.insert(user_id, w)
            },
            r matches Err(e) ==> e == StoreError::UpdateFailed && final(self)@ == old(self)@,
    {
        let current = self.wallet(user_id);
        let r = credit_wallet(current, user_id, real_amt, bonus_amt, grant_withdrawable, ts);
        if let Ok(w) = r {
            self.wallets.insert(user_id, w);
        }
        r
    }

    /// Debits a user's wallet. Only a wallet holding at least `real_amt` and
    /// `bonus_amt` matches; otherwise the debit fails and nothing changes.
    pub fn debit(
        &mut self,
        user_id: u32,
        real_amt: u64,
        bonus_amt: u64,
        reduce_withdrawable: bool,
        ts: u64,
    ) -> (r: Result<Wallet, StoreError>)
        requires
            old(self).wf(),
        ensures
            final(self).wf(),
            final(self)@.log == old(self)@.log,
            r is Ok <==> debit_matches(wallet_in(old(self)@.wallets, user_id), real_amt, bonus_amt),
            r matches Ok(w) ==> {
                &&& w == spec_debit(
                    old(self)@.wallets[user_id],
                    real_amt,
                    bonus_amt,
                    reduce_withdrawable,
                    ts,
                )
                &&& final(self)@.wallets == old(self)@.wallets.insert(user_id, w)
            },
            r matches Err(e) ==> e == StoreError::UpdateFailed && final(self)@ == old(self)@,
    {
        let current = self.wallet(user_id);
        let r = debit_wallet(current, real_amt, bonus_amt, reduce_withdrawable, ts);
        if let Ok(w) = r {
            self.wallets.insert(user_id, w);
        }
        r
    }
    /// Moves a user's balance by `(real_amt, bonus_amt)`: a debit when
    /// `subtract`, else a credit (the withdrawable part moves too when
    /// `update_withdrawable`). Returns the balance before and after, after
    /// checking that they differ by exactly that amount.
    pub fn apply_delta(
        &mut self,
        user_id: u32,
        real_amt: u64,
        bonus_amt: u64,
        subtract: bool,
        update_withdrawable: bool,
        ts: u64,
    ) -> (r: Result<(Money, Money), StoreError>)
        requires
            old(self).wf(),
        ensures
            final(self).wf(),
            final(self)@.log == old(self)@.log,
            r is Ok <==> (if subtract {
                debit_matches(wallet_in(old(self)@.wallets, user_id), real_amt, bonus_amt)
            } else {
                credit_fits(wallet_in(old(self)@.wallets, user_id), real_amt, bonus_amt)
            }),
            r matches Ok(p) ==> {
                &&& p.0 == balance_of(wallet_in(old(self)@.wallets, user_id))
                &&& p.1 == balance_of(wallet_in(final(self)@.wallets, user_id))
                &&& delta_consistent(p.0, p.1, real_amt, bonus_amt, subtract)
                &&& final(self)@.wallets == old(self)@.wallets.insert(
                    user_id,
                    if subtract {
                        spec_debit(old(self)@.wallets[user_id], real_amt, bonus_amt, update_withdrawable, ts)
                    } else {
                        spec_credit(
                            wallet_in(old(self)@.wallets, user_id),
                            user_id,
                            real_amt,
                            bonus_amt,
                            update_withdrawable,
                            ts,
                        )
                    },
                )
            },
            r matches Err(e) ==> e == StoreError::UpdateFailed && final(self)@ == old(self)@,
    {
        let current = self.wallet(user_id);
        let balance_before = self.get_balance(user_id);
        let updated = if subtract {
            debit_wallet(current, real_amt, bonus_amt, update_withdrawable, ts)
        } else {
            credit_wallet(current, user_id, real_amt, bonus_amt, update_withdrawable, ts)
        };
        let w = match updated {
            Ok(w) => w,
            Err(e) => return Err(e),
        };
        let checked = check_delta(balance_before, w.balance, real_amt, bonus_amt, subtract);
        if checked.is_ok() {
            self.wallets.insert(user_id, w);
        }
        checked
    }

    /// Records a pending add-balance transaction and returns its id.
    pub fn record_pending(&mut self, user_id: u32, amount: u64, balance_before: Money, ts: u64) -> (id: u64)
        requires
            old(self).wf(),
            old(self)@.log.len() < u64::MAX,
        ensures
            final(self).wf(),
            id == old(self)@.log.len(),
            final(self)@.wallets == old(self)@.wallets,
            final(self)@.log == old(self)@.log.push(spec_add_bal_init_trans(user_id, amount, balance_before, ts)),
    {
        let id = self.log.len() as u64;
        self.log.push(WalletTransaction::add_bal_init_trans(user_id, amount, balance_before, ts));
        assert(self@.wallets == old(self)@.wallets);
        id
    }

    /// The transaction `id` if it is pending and belongs to this user and
    /// type; a finished one never matches.
    pub fn find_pending(&self, id: u64, user_id: u32, ty: WalletTransactionType) -> (r: Option<&WalletTransaction>)
        ensures
            r is Some <==> pending_match(self@.log, id, user_id, ty),
            r matches Some(t) ==> *t == self@.log[id as int],
    {
        if id < self.log.len() as u64 {
            let t = &self.log[id as usize];
            if t.user_id == user_id && t.status == WalletTransactionStatus::Pending && t.transaction_type == ty {
                return Some(t);
            }
        }
        None
    }

    /// Marks the transaction `id` completed with the balance it left behind.
    pub fn mark_completed(
        &mut self,
        id: u64,
        balance_after: Money,
        tracking_id: &Option<String>,
        ts: u64,
    ) -> (r: UpdateResult)
        requires
            old(self).wf(),
        ensures
            final(self).wf(),
            final(self)@.wallets == old(self)@.wallets,
            id < old(self)@.log.len() ==> final(self)@.log == old(self)@.log.update(
                id as int,
                spec_completed(old(self)@.log[id as int], balance_after, *tracking_id, ts),
            ) && r.matched_count == 1 && r.modified_count == 1,
            id >= old(self)@.log.len() ==> final(self)@.log == old(self)@.log && r.matched_count == 0
                && r.modified_count == 0,
            r.upserted_id is None,
    {
        if id >= self.log.len() as u64 {
            return UpdateResult::new(0, 0, None);
        }
        let i = id as usize;
        let t = &self.log[i];
        let updated = WalletTransaction {
            user_id: t.user_id,
            transaction_type: t.transaction_type,
            status: WalletTransactionStatus::Completed,
            amount: t.amount,
            balance_before: t.balance_before,
            balance_after: Some(balance_after),
            tracking_id: copy_text(tracking_id),
            error_reason: copy_text(&t.error_reason),
            updated_by: t.updated_by,
            created_ts: t.created_ts,
            updated_ts: ts,
        };
        self.log.set(i, updated);
        assert(self@.wallets == old(self)@.wallets);
        UpdateResult::new(1, 1, None)
    }

    /// Marks the transaction `id` failed, from whatever state it is in.
    pub fn mark_failed(
        &mut self,
        id: u64,
        user_id: u32,
        error_reason: &Option<String>,
        tracking_id: &Option<String>,
        ts: u64,
    ) -> (r: UpdateResult)
        requires
            old(self).wf(),
        ensures
            final(self).wf(),
            final(self)@.wallets == old(self)@.wallets,
            id < old(self)@.log.len() ==> final(self)@.log == old(self)@.log.update(
                id as int,
                spec_failed(old(self)@.log[id as int], user_id, *error_reason, *tracking_id, ts),
            ) && r.matched_count == 1 && r.modified_count == 1,
            id >= old(self)@.log.len() ==> final(self)@.log == old(self)@.log && r.matched_count == 0
                && r.modified_count == 0,
            r.upserted_id is None,
    {
        if id >= self.log.len() as u64 {
            return UpdateResult::new(0, 0, None);
        }
        let i = id as usize;
        let t = &self.log[i];
        let updated = WalletTransaction {
            user_id: t.user_id,
            transaction_type: t.transaction_type,
            status: WalletTransactionStatus::Error,
            amount: t.amount,
            balance_before: t.balance_before,
            balance_after: t.balance_after,
            tracking_id: copy_text(tracking_id),
            error_reason: copy_text(error_reason),
            updated_by: Some(user_id),
            created_ts: t.created_ts,
            updated_ts: ts,
        };
        self.log.set(i, updated);
        assert(self@.wallets == old(self)@.wallets);
        UpdateResult::new(1, 1, None)
    }
}

/// On a ledger with no other writer, crediting a user and then debiting the
/// same amounts matches, and leaves the user's balance where it was.
pub proof fn lemma_ledger_credit_then_debit(
    s: LedgerState,
    user_id: u32,
    real_amt: u64,
    bonus_amt: u64,
    grant_withdrawable: bool,
    reduce_withdrawable: bool,
    ts1: u64,
    ts2: u64,
)
    requires
        ledger_wf(s),
        credit_fits(wallet_in(s.wallets, user_id), real_amt, bonus_amt),
    ensures
        ({
            let credited = s.wallets.insert(
                user_id,
                spec_credit(wallet_in(s.wallets, user_id), user_id, real_amt, bonus_amt, grant_withdrawable, ts1),
            );
            let debited = credited.insert(
                user_id,
                spec_debit(credited[user_id], real_amt, bonus_amt, reduce_withdrawable, ts2),
            );
            &&& debit_matches(wallet_in(credited, user_id), real_amt, bonus_amt)
            &&& balance_of(wallet_in(debited, user_id)) == balance_of(wallet_in(s.wallets, user_id))
        }),
{
}

} // verus!
