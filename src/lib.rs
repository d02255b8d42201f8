//! A streaming payments ledger: deposits, withdrawals and the dispute
//! lifecycle (dispute, resolve, chargeback) applied one transaction at a time
//! to per-client accounts.
//!
//! Monetary amounts are fixed-point decimals held as `i128` counts of
//! ten-thousandths of a unit, so `1.5` is `15000`.

pub mod engine;
pub mod models;
pub mod report;

pub use engine::Engine;
pub use models::{Account, Transaction, TxType};
pub use report::AccountRow;
