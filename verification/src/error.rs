//! The errors that applying a transaction can surface, together with the
//! exact human-readable message each one carries.

use vstd::prelude::*;
use vstd::string::StringExecFns;

verus! {

/// Why a transaction was rejected.
#[derive(Debug, Clone, Copy, PartialEq, Eq, Structural)]
pub enum ApplyErrorKind {
    /// The account is locked after a chargeback; nothing further is applied.
    AccountLocked,
    /// A deposit would push the total balance outside the representable range.
    BalanceOverflow,
    /// A withdrawal asks for more than the available balance.
    InsufficientFunds,
    /// A dispute would push the held balance outside the representable range.
    HeldBalanceOverflow,
}

/// The cause phrase of an error kind.
pub open spec fn cause_spec(kind: ApplyErrorKind) -> Seq<char> {
    match kind {
        ApplyErrorKind::AccountLocked => "Account is locked"@,
        ApplyErrorKind::BalanceOverflow => "Deposit would cause balance overflow"@,
        ApplyErrorKind::InsufficientFunds => "Insufficient available balance for withdrawal"@,
        ApplyErrorKind::HeldBalanceOverflow => "Dispute would cause held balance overflow"@,
    }
}

/// The full message of a rejected transaction: the transaction's description
/// followed by the cause.
pub open spec fn message_spec(description: Seq<char>, kind: ApplyErrorKind) -> Seq<char> {
    "Failed to apply "@ + description + ": "@ + cause_spec(kind)
}

/// A rejected transaction: the kind of failure and its full message.
#[derive(Debug)]
pub struct ApplyError {
    pub kind: ApplyErrorKind,
    pub message: String,
}

/// The cause phrase of an error kind.
fn cause_text(kind: ApplyErrorKind) -> (r: &'static str)
    ensures
        r@ == cause_spec(kind),
{
    match kind {
        ApplyErrorKind::AccountLocked => "Account is locked",
        ApplyErrorKind::BalanceOverflow => "Deposit would cause balance overflow",
        ApplyErrorKind::InsufficientFunds => "Insufficient available balance for withdrawal",
        ApplyErrorKind::HeldBalanceOverflow => "Dispute would cause held balance overflow",
    }
}

impl ApplyError {
    /// Wraps a failure kind with the description of the transaction it
    /// rejected.
    pub fn new(kind: ApplyErrorKind, description: &str) -> (r: ApplyError)
        ensures
            r.kind == kind,
            r.message@ == message_spec(description@, kind),
    {
        let message = String::from_str("Failed to apply ").concat(description).concat(
            ": ",
        ).concat(cause_text(kind));
        ApplyError { kind, message }
    }
}

} // verus!
