//! The mathematical model of one client's account ledger: its abstract state,
//! the well-formedness invariant of every reachable state, and the transition
//! function that says exactly what applying one transaction does.

use vstd::prelude::*;

use crate::amount::in_range;
use crate::error::ApplyErrorKind;
use crate::transaction::{
    ClientId, Deposit, Transaction, TransactionAction, TransactionId, Withdrawal,
};

verus! {

/// The abstract state of one client's ledger.
#[verifier::ext_equal]
pub struct LedgerView {
    pub client_id: ClientId,
    /// Funds the client can withdraw right now, in ten-thousandths.
    pub available: int,
    /// Funds frozen pending dispute resolution, in ten-thousandths.
    pub held: int,
    /// Available plus held funds, in ten-thousandths.
    pub total: int,
    /// Once true, permanently true; no further mutation is applied.
    pub locked: bool,
    /// Highwater mark: the last deposit or withdrawal identifier applied.
    pub last_transaction_id: Option<TransactionId>,
    /// Deposits neither disputed nor charged back; eligible for dispute.
    pub applied: Map<TransactionId, Deposit>,
    /// Deposits under dispute; eligible for resolve or chargeback.
    pub disputed: Map<TransactionId, Deposit>,
    /// Terminal record of charged-back deposits.
    pub chargedback: Map<TransactionId, Deposit>,
}

/// The sum of the amounts a deposit map holds, in ten-thousandths.
pub open spec fn sum_amounts(m: Map<TransactionId, Deposit>) -> int
    decreases m.dom().len(),
{
    if m.dom().finite() && m.dom().len() > 0 {
        let k = m.dom().choose();
        m[k].amount@ + sum_amounts(m.remove(k))
    } else {
        0
    }
}

/// Taking any held deposit out of a map lowers the sum by exactly its amount.
pub proof fn lemma_sum_remove(m: Map<TransactionId, Deposit>, k: TransactionId)
    requires
        m.dom().finite(),
        m.dom().contains(k),
    ensures
        sum_amounts(m) == m[k].amount@ + sum_amounts(m.remove(k)),
    decreases m.dom().len(),
{
    assert(m.dom().len() > 0) by {
        if m.dom().len() == 0 {
            assert(m.dom() =~= Set::empty());
        }
    }
    let c = m.dom().choose();
    if c == k {
        // the definition unfolds on exactly this element
    } else {
        lemma_sum_remove(m.remove(c), k);
        lemma_sum_remove(m.remove(k), c);
        assert(m.remove(c).remove(k) =~= m.remove(k).remove(c));
    }
}

/// Putting a fresh deposit into a map raises the sum by exactly its amount.
pub proof fn lemma_sum_insert(m: Map<TransactionId, Deposit>, k: TransactionId, d: Deposit)
    requires
        m.dom().finite(),
        !m.dom().contains(k),
    ensures
        sum_amounts(m.insert(k, d)) == sum_amounts(m) + d.amount@,
{
    lemma_sum_remove(m.insert(k, d), k);
    assert(m.insert(k, d).remove(k) =~= m);
}

/// A map of non-negative amounts has a non-negative sum.
pub proof fn lemma_sum_nonneg(m: Map<TransactionId, Deposit>)
    requires
        m.dom().finite(),
        amounts_nonneg(m),
    ensures
        sum_amounts(m) >= 0,
    decreases m.dom().len(),
{
    if m.dom().finite() && m.dom().len() > 0 {
        let c = m.dom().choose();
        lemma_sum_nonneg(m.remove(c));
    }
}

/// Whether every deposit a map holds has a non-negative amount.
pub open spec fn amounts_nonneg(m: Map<TransactionId, Deposit>) -> bool {
    forall|k: TransactionId| #[trigger] m.dom().contains(k) ==> m[k].amount@ >= 0
}

/// Whether every identifier a map holds is at or below the highwater mark.
pub open spec fn ids_at_or_below(
    m: Map<TransactionId, Deposit>,
    last: Option<TransactionId>,
) -> bool {
    forall|k: TransactionId| #[trigger] m.dom().contains(k) ==> (last matches Some(l) && k <= l)
}

impl LedgerView {
    /// The well-formedness invariant of every reachable ledger state.
    pub open spec fn wf(self) -> bool {
        &&& self.total == self.available + self.held
        &&& in_range(self.available)
        &&& in_range(self.held)
        &&& in_range(self.total)
        &&& self.held == sum_amounts(self.disputed)
        &&& self.held >= 0
        &&& (!self.locked ==> self.total >= 0)
        &&& self.applied.dom().finite()
        &&& self.disputed.dom().finite()
        &&& self.chargedback.dom().finite()
        &&& amounts_nonneg(self.applied)
        &&& amounts_nonneg(self.disputed)
        &&& amounts_nonneg(self.chargedback)
        &&& self.applied.dom().disjoint(self.disputed.dom())
        &&& self.applied.dom().disjoint(self.chargedback.dom())
        &&& self.disputed.dom().disjoint(self.chargedback.dom())
        &&& ids_at_or_below(self.applied, self.last_transaction_id)
        &&& ids_at_or_below(self.disputed, self.last_transaction_id)
        &&& ids_at_or_below(self.chargedback, self.last_transaction_id)
    }
}

/// The state of a freshly created ledger: zero balances, unlocked, no history.
pub open spec fn initial(client_id: ClientId) -> LedgerView {
    LedgerView {
        client_id,
        available: 0,
        held: 0,
        total: 0,
        locked: false,
        last_transaction_id: None,
        applied: Map::empty(),
        disputed: Map::empty(),
        chargedback: Map::empty(),
    }
}

/// Whether a deposit or withdrawal identifier is in order: strictly above the
/// highwater mark, or the first ever seen.
pub open spec fn in_order(last: Option<TransactionId>, id: TransactionId) -> bool {
    match last {
        Some(l) => l < id,
        None => true,
    }
}

/// Whether the amount a transaction carries, if any, is non-negative.
pub open spec fn amount_nonneg(t: Transaction) -> bool {
    match t.action {
        TransactionAction::Deposit(d) => d.amount@ >= 0,
        TransactionAction::Withdrawal(w) => w.amount@ >= 0,
        _ => true,
    }
}

/// What a deposit does: out-of-order identifiers are a silent no-op; a sum
/// outside the representable range is rejected untouched; otherwise the
/// amount enters both the available and the total balance and the deposit is
/// recorded as applied.
pub open spec fn step_deposit(m: LedgerView, id: TransactionId, deposit: Deposit) -> (
    LedgerView,
    Option<ApplyErrorKind>,
) {
    if !in_order(m.last_transaction_id, id) {
        (m, None)
    } else if !in_range(m.total + deposit.amount@) {
        (m, Some(ApplyErrorKind::BalanceOverflow))
    } else {
        (
            LedgerView {
                available: m.available + deposit.amount@,
                total: m.total + deposit.amount@,
                applied: m.applied.insert(id, deposit),
                last_transaction_id: Some(id),
                ..m
            },
            None,
        )
    }
}

/// What a withdrawal does: out-of-order identifiers are a silent no-op; more
/// than the available balance is rejected untouched; otherwise the amount
/// leaves both the available and the total balance.
pub open spec fn step_withdrawal(m: LedgerView, id: TransactionId, withdrawal: Withdrawal) -> (
    LedgerView,
    Option<ApplyErrorKind>,
) {
    if !in_order(m.last_transaction_id, id) {
        (m, None)
    } else if withdrawal.amount@ > m.available {
        (m, Some(ApplyErrorKind::InsufficientFunds))
    } else {
        (
            LedgerView {
                available: m.available - withdrawal.amount@,
                total: m.total - withdrawal.amount@,
                last_transaction_id: Some(id),
                ..m
            },
            None,
        )
    }
}

/// What a dispute does: an identifier with no applied deposit is a silent
/// no-op; a held balance outside the representable range is rejected
/// untouched; otherwise the deposit moves to the disputed map and its amount
/// from the available to the held balance.
pub open spec fn step_dispute(m: LedgerView, id: TransactionId) -> (
    LedgerView,
    Option<ApplyErrorKind>,
) {
    if !m.applied.dom().contains(id) {
        (m, None)
    } else {
        let deposit = m.applied[id];
        if !in_range(m.held + deposit.amount@) {
            (m, Some(ApplyErrorKind::HeldBalanceOverflow))
        } else {
            (
                LedgerView {
                    available: m.available - deposit.amount@,
                    held: m.held + deposit.amount@,
                    applied: m.applied.remove(id),
                    disputed: m.disputed.insert(id, deposit),
                    ..m
                },
                None,
            )
        }
    }
}

/// What a resolve does: an identifier with no disputed deposit is a silent
/// no-op; otherwise the deposit moves back to the applied map and its amount
/// from the held to the available balance.
pub open spec fn step_resolve(m: LedgerView, id: TransactionId) -> (
    LedgerView,
    Option<ApplyErrorKind>,
) {
    if !m.disputed.dom().contains(id) {
        (m, None)
    } else {
        let deposit = m.disputed[id];
        (
            LedgerView {
                available: m.available + deposit.amount@,
                held: m.held - deposit.amount@,
                applied: m.applied.insert(id, deposit),
                disputed: m.disputed.remove(id),
                ..m
            },
            None,
        )
    }
}

/// What a chargeback does: an identifier with no disputed deposit is a silent
/// no-op; otherwise the deposit moves to the terminal charged-back map, its
/// amount leaves both the held and the total balance, and the account locks.
pub open spec fn step_chargeback(m: LedgerView, id: TransactionId) -> (
    LedgerView,
    Option<ApplyErrorKind>,
) {
    if !m.disputed.dom().contains(id) {
        (m, None)
    } else {
        let deposit = m.disputed[id];
        (
            LedgerView {
                held: m.held - deposit.amount@,
                total: m.total - deposit.amount@,
                disputed: m.disputed.remove(id),
                chargedback: m.chargedback.insert(id, deposit),
                locked: true,
                ..m
            },
            None,
        )
    }
}

/// What applying one transaction does to a ledger state: a locked account
/// rejects everything untouched; otherwise the action decides.
pub open spec fn step(m: LedgerView, t: Transaction) -> (LedgerView, Option<ApplyErrorKind>) {
    if m.locked {
        (m, Some(ApplyErrorKind::AccountLocked))
    } else {
        match t.action {
            TransactionAction::Deposit(d) => step_deposit(m, t.transaction_id, d),
            TransactionAction::Withdrawal(w) => step_withdrawal(m, t.transaction_id, w),
            TransactionAction::Dispute => step_dispute(m, t.transaction_id),
            TransactionAction::Resolve => step_resolve(m, t.transaction_id),
            TransactionAction::Chargeback => step_chargeback(m, t.transaction_id),
        }
    }
}

/// Law: a locked ledger rejects every transaction with the locked-account
/// error and is left exactly as it was, whatever the transaction asks.
pub proof fn lemma_locked_rejects_everything(m: LedgerView, t: Transaction)
    requires
        m.locked,
    ensures
        step(m, t).0 == m,
        step(m, t).1 == Some(ApplyErrorKind::AccountLocked),
{
}

/// Law: applying the same deposit or withdrawal twice in a row leaves the
/// ledger exactly as applying it once, whether the first application
/// succeeded, was rejected, or was skipped; the replay is always a silent
/// success.
pub proof fn lemma_replay_is_idempotent(m: LedgerView, t: Transaction)
    requires
        t.action matches TransactionAction::Deposit(_) || t.action
            matches TransactionAction::Withdrawal(_),
    ensures
        step(step(m, t).0, t).0 == step(m, t).0,
{
}

/// Law: once a deposit or withdrawal has been applied, any later deposit or
/// withdrawal whose identifier is at or below it is a silent no-op: the
/// ledger is unchanged and the call succeeds.
pub proof fn lemma_out_of_order_is_skipped(m: LedgerView, t1: Transaction, t2: Transaction)
    requires
        !m.locked,
        t1.action matches TransactionAction::Deposit(_) || t1.action
            matches TransactionAction::Withdrawal(_),
        t2.action matches TransactionAction::Deposit(_) || t2.action
            matches TransactionAction::Withdrawal(_),
        in_order(m.last_transaction_id, t1.transaction_id),
        step(m, t1).1 is None,
        t2.transaction_id <= t1.transaction_id,
    ensures
        step(step(m, t1).0, t2).0 == step(m, t1).0,
        step(step(m, t1).0, t2).1 is None,
{
}

/// Law: disputing an applied deposit and then resolving it restores the
/// ledger exactly: the balances, the highwater mark, the lock flag and all
/// three deposit maps are as they were, and both calls succeed.
pub proof fn lemma_dispute_resolve_round_trip(
    m: LedgerView,
    dispute: Transaction,
    resolve: Transaction,
)
    requires
        m.wf(),
        !m.locked,
        dispute.action is Dispute,
        resolve.action is Resolve,
        resolve.transaction_id == dispute.transaction_id,
        m.applied.dom().contains(dispute.transaction_id),
        in_range(m.held + m.applied[dispute.transaction_id].amount@),
    ensures
        step(m, dispute).1 is None,
        step(step(m, dispute).0, resolve).1 is None,
        step(step(m, dispute).0, resolve).0 == m,
{
    let id = dispute.transaction_id;
    let deposit = m.applied[id];
    let m1 = step(m, dispute).0;
    let m2 = step(m1, resolve).0;
    assert(m2.applied =~= m.applied);
    assert(m2.disputed =~= m.disputed);
    assert(m2 =~= m);
}

} // verus!
