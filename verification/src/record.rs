//! Mapping of raw transaction records onto [`Transaction`] values.
//!
//! A record arrives as a transaction-type word, the client and transaction
//! identifiers, and an optional amount. Turning it into a well-typed
//! [`Transaction`] validates the type word and, for deposits and
//! withdrawals, demands a strictly positive amount.

use vstd::prelude::*;
use vstd::string::StringExecFns;

use crate::amount::Amount;
use crate::text::{decimal_digits, u32_to_string};
use crate::transaction::{
    ClientId, Deposit, Transaction, TransactionAction, TransactionId, Withdrawal,
};

verus! {

/// Why a raw record could not be read as a transaction.
#[derive(Debug, Clone, Copy, PartialEq, Eq, Structural)]
pub enum ReadErrorKind {
    /// A deposit or withdrawal record without an amount.
    MissingAmount,
    /// A deposit or withdrawal record whose amount is zero or negative.
    NonPositiveAmount,
    /// A record whose transaction-type word is not one of the five known.
    UnknownType,
}

/// The cause phrase of a read failure, for the given transaction-type word.
pub open spec fn read_cause_spec(kind: ReadErrorKind, transaction_type: Seq<char>) -> Seq<char> {
    match kind {
        ReadErrorKind::MissingAmount => "Amount is missing"@,
        ReadErrorKind::NonPositiveAmount => "Amount is negative or zero"@,
        ReadErrorKind::UnknownType => "Unknown type "@ + transaction_type,
    }
}

/// The full message of a rejected record: the transaction identifier followed
/// by the cause.
pub open spec fn read_message_spec(id: TransactionId, cause: Seq<char>) -> Seq<char> {
    "Failed to read transaction with ID "@ + decimal_digits(id as nat) + ": "@ + cause
}

/// A rejected record: the kind of failure and its full message.
#[derive(Debug)]
pub struct ReadError {
    pub kind: ReadErrorKind,
    pub message: String,
}

impl ReadError {
    /// Wraps a failure kind with the identifier and type word of the record
    /// it rejected.
    fn new(kind: ReadErrorKind, transaction_id: TransactionId, transaction_type: &str) -> (r:
        ReadError)
        ensures
            r.kind == kind,
            r.message@ == read_message_spec(
                transaction_id,
                read_cause_spec(kind, transaction_type@),
            ),
    {
        let cause: String = match kind {
            ReadErrorKind::MissingAmount => String::from_str("Amount is missing"),
            ReadErrorKind::NonPositiveAmount => String::from_str("Amount is negative or zero"),
            ReadErrorKind::UnknownType => String::from_str("Unknown type ").concat(
                transaction_type,
            ),
        };
        let message = String::from_str("Failed to read transaction with ID ").concat(
            u32_to_string(transaction_id).as_str(),
        ).concat(": ").concat(cause.as_str());
        ReadError { kind, message }
    }
}

/// A raw transaction record, as the external reader hands it over: the
/// transaction-type word still unvalidated and the amount optional.
#[derive(Debug)]
pub struct CsvTransaction {
    pub transaction_type: String,
    pub client_id: ClientId,
    pub transaction_id: TransactionId,
    pub amount: Option<Amount>,
}

/// What reading a record yields: the transaction it describes, or the kind of
/// failure that rejects it.
pub open spec fn parse_spec(rec: CsvTransaction) -> Result<Transaction, ReadErrorKind> {
    let ty = rec.transaction_type@;
    if ty == "deposit"@ {
        match positive_amount_spec(rec) {
            Ok(amount) => Ok(
                Transaction {
                    client_id: rec.client_id,
                    transaction_id: rec.transaction_id,
                    action: TransactionAction::Deposit(Deposit { amount }),
                },
            ),
            Err(kind) => Err(kind),
        }
    } else if ty == "withdrawal"@ {
        match positive_amount_spec(rec) {
            Ok(amount) => Ok(
                Transaction {
                    client_id: rec.client_id,
                    transaction_id: rec.transaction_id,
                    action: TransactionAction::Withdrawal(Withdrawal { amount }),
                },
            ),
            Err(kind) => Err(kind),
        }
    } else if ty == "dispute"@ {
        Ok(
            Transaction {
                client_id: rec.client_id,
                transaction_id: rec.transaction_id,
                action: TransactionAction::Dispute,
            },
        )
    } else if ty == "resolve"@ {
        Ok(
            Transaction {
                client_id: rec.client_id,
                transaction_id: rec.transaction_id,
                action: TransactionAction::Resolve,
            },
        )
    } else if ty == "chargeback"@ {
        Ok(
            Transaction {
                client_id: rec.client_id,
                transaction_id: rec.transaction_id,
                action: TransactionAction::Chargeback,
            },
        )
    } else {
        Err(ReadErrorKind::UnknownType)
    }
}

/// The amount a deposit or withdrawal record must carry: present and
/// strictly positive.
pub open spec fn positive_amount_spec(rec: CsvTransaction) -> Result<Amount, ReadErrorKind> {
    match rec.amount {
        None => Err(ReadErrorKind::MissingAmount),
        Some(amount) => if amount@ > 0 {
            Ok(amount)
        } else {
            Err(ReadErrorKind::NonPositiveAmount)
        },
    }
}

/// Whether a string equals a literal, character for character.
fn string_eq(s: &String, lit: &str) -> (r: bool)
    ensures
        r == (s@ == lit@),
{
    let other: String = lit.to_owned();
    s.eq(&other)
}

impl CsvTransaction {
    /// Reads this record as a transaction, doing exactly what
    /// [`parse_spec`] says: the five known type words map to their actions,
    /// deposits and withdrawals demand a strictly positive amount, and a
    /// rejected record carries the kind and the exact message naming it.
    pub fn to_transaction(self) -> (r: Result<Transaction, ReadError>)
        ensures
            match r {
                Ok(t) => parse_spec(self) == Ok::<Transaction, ReadErrorKind>(t),
                Err(e) => {
                    &&& parse_spec(self) == Err::<Transaction, ReadErrorKind>(e.kind)
                    &&& e.message@ == read_message_spec(
                        self.transaction_id,
                        read_cause_spec(e.kind, self.transaction_type@),
                    )
                },
            },
    {
        let transaction_id = self.transaction_id;

        let result: Result<Transaction, ReadErrorKind> = if string_eq(
            &self.transaction_type,
            "deposit",
        ) {
            self.to_deposit()
        } else if string_eq(&self.transaction_type, "withdrawal") {
            self.to_withdrawal()
        } else if string_eq(&self.transaction_type, "dispute") {
            Ok(self.to_dispute())
        } else if string_eq(&self.transaction_type, "resolve") {
            Ok(self.to_resolve())
        } else if string_eq(&self.transaction_type, "chargeback") {
            Ok(self.to_chargeback())
        } else {
            Err(ReadErrorKind::UnknownType)
        };

        match result {
            Ok(t) => Ok(t),
            Err(kind) => Err(ReadError::new(kind, transaction_id, self.transaction_type.as_str())),
        }
    }

    /// This record as a deposit, once its amount is present and positive.
    fn to_deposit(&self) -> (r: Result<Transaction, ReadErrorKind>)
        ensures
            match r {
                Ok(t) => positive_amount_spec(*self) matches Ok(amount) && t == (Transaction {
                    client_id: self.client_id,
                    transaction_id: self.transaction_id,
                    action: TransactionAction::Deposit(Deposit { amount }),
                }),
                Err(kind) => positive_amount_spec(*self) == Err::<Amount, ReadErrorKind>(kind),
            },
    {
        match self.assert_positive_amount() {
            Ok(amount) => Ok(
                Transaction {
                    client_id: self.client_id,
                    transaction_id: self.transaction_id,
                    action: TransactionAction::Deposit(Deposit { amount }),
                },
            ),
            Err(kind) => Err(kind),
        }
    }

    /// This record as a withdrawal, once its amount is present and positive.
    fn to_withdrawal(&self) -> (r: Result<Transaction, ReadErrorKind>)
        ensures
            match r {
                Ok(t) => positive_amount_spec(*self) matches Ok(amount) && t == (Transaction {
                    client_id: self.client_id,
                    transaction_id: self.transaction_id,
                    action: TransactionAction::Withdrawal(Withdrawal { amount }),
                }),
                Err(kind) => positive_amount_spec(*self) == Err::<Amount, ReadErrorKind>(kind),
            },
    {
        match self.assert_positive_amount() {
            Ok(amount) => Ok(
                Transaction {
                    client_id: self.client_id,
                    transaction_id: self.transaction_id,
                    action: TransactionAction::Withdrawal(Withdrawal { amount }),
                },
            ),
            Err(kind) => Err(kind),
        }
    }

    /// This record as a dispute.
    fn to_dispute(&self) -> (r: Transaction)
        ensures
            r == (Transaction {
                client_id: self.client_id,
                transaction_id: self.transaction_id,
                action: TransactionAction::Dispute,
            }),
    {
        Transaction {
            client_id: self.client_id,
            transaction_id: self.transaction_id,
            action: TransactionAction::Dispute,
        }
    }

    /// This record as a resolve.
    fn to_resolve(&self) -> (r: Transaction)
        ensures
            r == (Transaction {
                client_id: self.client_id,
                transaction_id: self.transaction_id,
                action: TransactionAction::Resolve,
            }),
    {
        Transaction {
            client_id: self.client_id,
            transaction_id: self.transaction_id,
            action: TransactionAction::Resolve,
        }
    }

    /// This record as a chargeback.
    fn to_chargeback(&self) -> (r: Transaction)
        ensures
            r == (Transaction {
                client_id: self.client_id,
                transaction_id: self.transaction_id,
                action: TransactionAction::Chargeback,
            }),
    {
        Transaction {
            client_id: self.client_id,
            transaction_id: self.transaction_id,
            action: TransactionAction::Chargeback,
        }
    }

    /// The amount this record must carry to be a deposit or withdrawal:
    /// present and strictly positive.
    fn assert_positive_amount(&self) -> (r: Result<Amount, ReadErrorKind>)
        ensures
            r == positive_amount_spec(*self),
    {
        match self.amount {
            None => Err(ReadErrorKind::MissingAmount),
            Some(amount) => {
                if amount.is_positive() {
                    Ok(amount)
                } else {
                    Err(ReadErrorKind::NonPositiveAmount)
                }
            },
        }
    }
}

} // verus!
