//! A verified per-client account ledger for a stream of financial
//! transactions.
//!
//! Each client owns one [`account::ClientAccount`], mutated exclusively
//! through [`account::ClientAccount::apply_transaction`]. Deposits and
//! withdrawals move funds in and out under an ordering and idempotency
//! policy; the dispute lifecycle moves a deposit's funds between the
//! available and the held balance and can end in a terminal chargeback that
//! locks the account. The exact effect of every transaction is given by the
//! transition function in [`model`], and every reachable state satisfies the
//! invariant [`model::LedgerView::wf`] — in particular, the total balance
//! always equals the available plus the held balance, and monetary
//! arithmetic never overflows silently.

pub mod account;
pub mod amount;
pub mod error;
pub mod model;
pub mod record;
pub mod text;
pub mod transaction;
