//! Wallet ledger engine: money arithmetic, wallet balance updates, the
//! transaction log, the session retry policy and the two-call add-balance
//! protocol, each with its contract.

pub mod error;
pub mod helpers;
pub mod ledger;
pub mod models;
pub mod money;
pub mod protocol;
pub mod routes;
pub mod services;
pub mod session;
pub mod text;
pub mod transaction;
pub mod validators;
pub mod wallet;
