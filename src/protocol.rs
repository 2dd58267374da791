use vstd::prelude::*;

use crate::error::{store_error_text, AppError};
use crate::helpers::{balance_mismatch_text, end_check, EndCheck, EndVerdict, WalletHelpers};
use crate::ledger::{ledger_wf, pending_match, wallet_in, LedgerState, WalletLedger};
use crate::models::{amount_valid, end_req_complete, AddBalEndReq, AddBalInitReq, AddBalInitRes, GenericResponse};
use crate::transaction::{
    spec_add_bal_init_trans, spec_completed, spec_failed, WalletTransactionType,
};
use crate::wallet::{balance_of, credit_fits, spec_credit, StoreError};

verus! {

/// How a call that finishes an add-balance transaction ends.
#[derive(Clone, Copy, Debug, PartialEq, Eq, Structural)]
pub enum EndOutcome {
    /// A failed payment was reported without a reason.
    MissingReason,
    /// No pending add-balance transaction of this user has this id.
    NotFound,
    /// The reported amount is not the recorded one.
    AmountMismatch,
    /// The wallet moved since the transaction was opened: it is marked failed.
    BalanceMismatch,
    /// A failed payment is recorded.
    ReportedFailure,
    /// The credit cannot be applied: the balance would not fit.
    CreditFailed,
    /// The wallet is credited and the transaction completed.
    Credited,
}

/// The pending record that `req` names, if it matches.
pub open spec fn pending_of(s: LedgerState, user_id: u32, req: AddBalEndReq) -> Option<crate::transaction::WalletTransaction> {
    if pending_match(s.log, req.transaction_id, user_id, WalletTransactionType::AddBalance) {
        Some(s.log[req.transaction_id as int])
    } else {
        None
    }
}

/// How finishing the transaction `req` names ends on the ledger `s`.
pub open spec fn end_outcome(s: LedgerState, user_id: u32, req: AddBalEndReq) -> EndOutcome {
    if !end_req_complete(req.is_successful, req.error_reason) {
        EndOutcome::MissingReason
    } else {
        match end_check(req.amount, pending_of(s, user_id, req), balance_of(wallet_in(s.wallets, user_id))) {
            EndCheck::NotFound => EndOutcome::NotFound,
            EndCheck::AmountMismatch => EndOutcome::AmountMismatch,
            EndCheck::BalanceMismatch => EndOutcome::BalanceMismatch,
            EndCheck::Pass => if !req.is_successful {
                EndOutcome::ReportedFailure
            } else if !credit_fits(wallet_in(s.wallets, user_id), req.amount, 0) {
                EndOutcome::CreditFailed
            } else {
                EndOutcome::Credited
            },
        }
    }
}

/// The wallet that a successful payment leaves behind.
pub open spec fn credited_wallet(s: LedgerState, user_id: u32, req: AddBalEndReq, ts: u64) -> crate::wallet::Wallet {
    spec_credit(wallet_in(s.wallets, user_id), user_id, req.amount, 0, false, ts)
}

/// The ledger after finishing the transaction `req` names.
pub open spec fn end_state(s: LedgerState, user_id: u32, req: AddBalEndReq, ts: u64) -> LedgerState {
    let id = req.transaction_id as int;
    match end_outcome(s, user_id, req) {
        EndOutcome::BalanceMismatch | EndOutcome::ReportedFailure => LedgerState {
            wallets: s.wallets,
            log: s.log.update(id, spec_failed(s.log[id], user_id, req.error_reason, req.tracking_id, ts)),
        },
        EndOutcome::Credited => LedgerState {
            wallets: s.wallets.insert(user_id, credited_wallet(s, user_id, req, ts)),
            log: s.log.update(
                id,
                spec_completed(s.log[id], credited_wallet(s, user_id, req, ts).balance, req.tracking_id, ts),
            ),
        },
        _ => s,
    }
}

impl WalletLedger {
    /// Opens an add-balance transaction: records it as pending with the
    /// user's current balance, changes no balance, and answers with its id
    /// and the payment destination.
    pub fn add_bal_init(&mut self, user_id: u32, req: &AddBalInitReq, app_upi_id: &str, ts: u64) -> (r: Result<
        AddBalInitRes,
        AppError,
    >)
        requires
            old(self).wf(),
            old(self)@.log.len() < u64::MAX,
        ensures
            final(self).wf(),
            r is Ok <==> amount_valid(req.amount),
            r matches Ok(res) ==> {
                &&& res.success
                &&& res.transaction_id == old(self)@.log.len()
                &&& res.app_upi_id@ == app_upi_id@
                &&& final(self)@.wallets == old(self)@.wallets
                &&& final(self)@.log == old(self)@.log.push(
                    spec_add_bal_init_trans(
                        user_id,
                        req.amount,
                        balance_of(wallet_in(old(self)@.wallets, user_id)),
                        ts,
                    ),
                )
            },
            r matches Err(e) ==> e is BadRequest && final(self)@ == old(self)@,
    {
        if let Err(e) = req.validate() {
            return Err(e);
        }
        let balance_before = self.get_balance(user_id);
        let transaction_id = self.record_pending(user_id, req.amount, balance_before, ts);
        Ok(AddBalInitRes { success: true, transaction_id, app_upi_id: app_upi_id.to_owned() })
    }

    /// Finishes an add-balance transaction with the reported payment outcome.
    /// The pending record must match and agree with the wallet; then a
    /// success credits the wallet and completes the record together, and a
    /// failure marks the record failed. A finished record never matches again.
    pub fn add_bal_end(&mut self, user_id: u32, req: &AddBalEndReq, ts: u64) -> (r: Result<GenericResponse, AppError>)
        requires
            old(self).wf(),
        ensures
            final(self).wf(),
            final(self)@ == end_state(old(self)@, user_id, *req, ts),
            r is Ok <==> (end_outcome(old(self)@, user_id, *req) is ReportedFailure || end_outcome(
                old(self)@,
                user_id,
                *req,
            ) is Credited),
            r matches Ok(g) ==> g.success && g.message@ == "Updated successfully"@,
            r matches Err(e) ==> match end_outcome(old(self)@, user_id, *req) {
                EndOutcome::MissingReason => e is BadRequest && e.message()
                    == "errorReason is required for failed transaction"@,
                EndOutcome::NotFound => e is NotFound && e.message() == "transaction not found"@,
                EndOutcome::AmountMismatch => e is BadRequest && e.message() == "amount do not match"@,
                EndOutcome::BalanceMismatch => e is BadRequest && e.message() == balance_mismatch_text(
                    balance_of(wallet_in(old(self)@.wallets, user_id)),
                    old(self)@.log[req.transaction_id as int].balance_before,
                ),
                EndOutcome::CreditFailed => e is AnyError && e.message() == store_error_text(
                    StoreError::UpdateFailed,
                ),
                _ => false,
            },
    {
        if let Err(e) = req.validate_extra() {
            return Err(e);
        }
        let helpers = WalletHelpers::new();
        let user_balance = self.get_balance(user_id);
        let verdict = helpers.validate_add_bal_transaction(
            req.amount,
            self.find_pending(req.transaction_id, user_id, WalletTransactionType::AddBalance),
            user_balance,
        );
        match verdict {
            EndVerdict::Reject(e) => return Err(e),
            EndVerdict::MarkFailedAndReject(e) => {
                self.mark_failed(req.transaction_id, user_id, &req.error_reason, &req.tracking_id, ts);
                return Err(e);
            },
            EndVerdict::Proceed => {},
        }
        if !req.is_successful {
            self.mark_failed(req.transaction_id, user_id, &req.error_reason, &req.tracking_id, ts);
        } else {
            let (_, balance_after) = match self.apply_delta(user_id, req.amount, 0, false, false, ts) {
                Ok(p) => p,
                Err(e) => return Err(AppError::from_store(e)),
            };
            self.mark_completed(req.transaction_id, balance_after, &req.tracking_id, ts);
        }
        Ok(GenericResponse::new(true, "Updated successfully"))
    }
}

/// Finishing a transaction a second time with the same report finds no
/// pending record, and changes nothing: the wallet is never credited twice.
pub proof fn lemma_end_twice(s: LedgerState, user_id: u32, req: AddBalEndReq, ts1: u64, ts2: u64)
    requires
        ledger_wf(s),
        end_outcome(s, user_id, req) is Credited || end_outcome(s, user_id, req) is ReportedFailure
            || end_outcome(s, user_id, req) is BalanceMismatch,
    ensures
        end_outcome(end_state(s, user_id, req, ts1), user_id, req) == EndOutcome::NotFound,
        end_state(end_state(s, user_id, req, ts1), user_id, req, ts2) == end_state(s, user_id, req, ts1),
{
}

} // verus!
