//! A verified transaction-processing engine.
//!
//! The engine ingests deposits, withdrawals, disputes, resolves and
//! chargebacks keyed by client and transaction identifiers and maintains,
//! for every client, a consistent account balance (available, held, total,
//! locked). Every handler is verified: balances never go negative, the
//! total always equals available plus held, business-rule failures are
//! silent no-ops, and a locked account accepts no further effect until it
//! is explicitly unlocked.

pub mod accounting;
pub mod models;

pub use accounting::Accounting;
pub use models::Account;
pub use models::Amount;
pub use models::ClientId;
pub use models::Transaction;
pub use models::TxId;
pub use models::TxType;
