//! The transaction model: one immutable event against a single client's
//! account, carrying the client, a per-client transaction identifier and the
//! action to take.

use vstd::prelude::*;
use vstd::string::StringExecFns;

use crate::amount::Amount;
use crate::text::{decimal_digits, u32_to_string};

verus! {

/// Identifies the client whose account a transaction addresses.
pub type ClientId = u16;

/// Identifies a transaction; scoped to one client and compared numerically to
/// establish ordering.
pub type TransactionId = u32;

/// A request to add funds to an account.
#[derive(Debug, Clone, Copy, PartialEq, Eq, Structural)]
pub struct Deposit {
    pub amount: Amount,
}

/// A request to remove funds from an account.
#[derive(Debug, Clone, Copy, PartialEq, Eq, Structural)]
pub struct Withdrawal {
    pub amount: Amount,
}

/// What a transaction asks the account to do.
#[derive(Debug, Clone, Copy, PartialEq, Eq, Structural)]
pub enum TransactionAction {
    Deposit(Deposit),
    Withdrawal(Withdrawal),
    Dispute,
    Resolve,
    Chargeback,
}

/// One event in a client's transaction stream.
#[derive(Debug, Clone, Copy, PartialEq, Eq, Structural)]
pub struct Transaction {
    pub client_id: ClientId,
    pub transaction_id: TransactionId,
    pub action: TransactionAction,
}

/// The phrase naming a transaction in error messages: its kind followed by its
/// identifier.
pub open spec fn description_spec(t: Transaction) -> Seq<char> {
    match t.action {
        TransactionAction::Deposit(_) => "deposit with transaction ID "@ + decimal_digits(
            t.transaction_id as nat,
        ),
        TransactionAction::Withdrawal(_) => "withdrawal with transaction ID "@ + decimal_digits(
            t.transaction_id as nat,
        ),
        TransactionAction::Dispute => "dispute for transaction ID "@ + decimal_digits(
            t.transaction_id as nat,
        ),
        TransactionAction::Resolve => "resolve for transaction ID "@ + decimal_digits(
            t.transaction_id as nat,
        ),
        TransactionAction::Chargeback => "chargeback for transaction ID "@ + decimal_digits(
            t.transaction_id as nat,
        ),
    }
}

impl Transaction {
    /// The phrase naming this transaction in error messages.
    pub fn to_string(&self) -> (r: String)
        ensures
            r@ == description_spec(*self),
    {
        let id = u32_to_string(self.transaction_id);
        match self.action {
            TransactionAction::Deposit(_) => String::from_str(
                "deposit with transaction ID ",
            ).concat(id.as_str()),
            TransactionAction::Withdrawal(_) => String::from_str(
                "withdrawal with transaction ID ",
            ).concat(id.as_str()),
            TransactionAction::Dispute => String::from_str("dispute for transaction ID ").concat(
                id.as_str(),
            ),
            TransactionAction::Resolve => String::from_str("resolve for transaction ID ").concat(
                id.as_str(),
            ),
            TransactionAction::Chargeback => String::from_str(
                "chargeback for transaction ID ",
            ).concat(id.as_str()),
        }
    }
}

} // verus!
