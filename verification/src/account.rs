//! One client's account ledger: the balances, the dispute-tracking maps and
//! the lock flag, mutated exclusively through [`ClientAccount::apply_transaction`].
//!
//! Every public operation is specified against the abstract model in
//! [`crate::model`]: applying a transaction does exactly what
//! [`step`] says, and every reachable state satisfies
//! [`LedgerView::wf`].

use std::collections::HashMap;

use vstd::prelude::*;

use crate::amount::Amount;
use crate::error::{ApplyError, ApplyErrorKind};
use crate::model::{
    amount_nonneg, in_order, initial, lemma_sum_insert, lemma_sum_nonneg, lemma_sum_remove,
    step, step_chargeback, step_deposit, step_dispute, step_resolve, step_withdrawal, LedgerView,
};
use crate::transaction::{Deposit, Transaction, TransactionAction, TransactionId, Withdrawal};

pub use crate::transaction::ClientId;

verus! {

broadcast use vstd::std_specs::hash::group_hash_axioms;

/// One client's account ledger.
pub struct ClientAccount {
    pub client_id: ClientId,
    /// Funds the client can withdraw right now.
    pub available_balance: Amount,
    /// Funds frozen pending dispute resolution.
    pub held_balance: Amount,
    /// Available plus held funds.
    pub total_balance: Amount,
    /// Once true, permanently true; every further transaction is rejected.
    pub locked: bool,
    /// Highwater mark: the last deposit or withdrawal identifier applied.
    pub last_transaction_id: Option<TransactionId>,
    /// Deposits neither disputed nor charged back; eligible for dispute.
    pub applied_deposits: HashMap<TransactionId, Deposit>,
    /// Deposits under dispute; eligible for resolve or chargeback.
    pub disputed_deposits: HashMap<TransactionId, Deposit>,
    /// Terminal record of charged-back deposits.
    pub chargedback_deposits: HashMap<TransactionId, Deposit>,
}

impl View for ClientAccount {
    type V = LedgerView;

    open spec fn view(&self) -> LedgerView {
        LedgerView {
            client_id: self.client_id,
            available: self.available_balance@,
            held: self.held_balance@,
            total: self.total_balance@,
            locked: self.locked,
            last_transaction_id: self.last_transaction_id,
            applied: self.applied_deposits@,
            disputed: self.disputed_deposits@,
            chargedback: self.chargedback_deposits@,
        }
    }
}

impl ClientAccount {
    /// Whether this ledger is in a reachable, well-formed state.
    pub open spec fn well_formed(self) -> bool {
        self@.wf()
    }

    /// A fresh ledger for a client: zero balances, unlocked, no history.
    pub fn new(client_id: ClientId) -> (r: ClientAccount)
        ensures
            r@ == initial(client_id),
            r.well_formed(),
    {
        let r = ClientAccount {
            client_id,
            available_balance: Amount::zero(),
            held_balance: Amount::zero(),
            total_balance: Amount::zero(),
            locked: false,
            last_transaction_id: None,
            applied_deposits: HashMap::new(),
            disputed_deposits: HashMap::new(),
            chargedback_deposits: HashMap::new(),
        };
        proof {
            assert(r@ =~= initial(client_id));
            assert(Map::<TransactionId, Deposit>::empty().dom() =~= Set::empty());
        }
        r
    }

    /// Applies one transaction to this ledger, doing exactly what
    /// [`step`] says: on success the state moves to the next one, on failure
    /// it is left exactly as before the call, and the error carries the kind
    /// and the exact message naming the rejected transaction.
    pub fn apply_transaction(&mut self, transaction: Transaction) -> (r: Result<(), ApplyError>)
        requires
            old(self).well_formed(),
            transaction.client_id == old(self).client_id,
            amount_nonneg(transaction),
        ensures
            final(self).well_formed(),
            final(self)@ == step(old(self)@, transaction).0,
            match r {
                Ok(()) => step(old(self)@, transaction).1 is None,
                Err(e) => {
                    &&& step(old(self)@, transaction).1 == Some(e.kind)
                    &&& e.message@ == crate::error::message_spec(
                        crate::transaction::description_spec(transaction),
                        e.kind,
                    )
                },
            },
    {
        let transaction_id = transaction.transaction_id;
        let description = transaction.to_string();

        if self.locked {
            return Err(ApplyError::new(ApplyErrorKind::AccountLocked, description.as_str()));
        }

        let result = match transaction.action {
            TransactionAction::Deposit(deposit) => self.apply_deposit(transaction_id, deposit),
            TransactionAction::Withdrawal(withdrawal) => self.apply_withdrawal(
                transaction_id,
                withdrawal,
            ),
            TransactionAction::Dispute => self.apply_dispute(transaction_id),
            TransactionAction::Resolve => self.apply_resolve(transaction_id),
            TransactionAction::Chargeback => self.apply_chargeback(transaction_id),
        };

        match result {
            Ok(()) => Ok(()),
            Err(kind) => Err(ApplyError::new(kind, description.as_str())),
        }
    }

    /// Adds an in-order deposit to the available and total balances; the
    /// total is checked first, since it is always at least the available
    /// balance, so a safe total implies a safe available balance.
    fn apply_deposit(&mut self, transaction_id: TransactionId, deposit: Deposit) -> (r: Result<
        (),
        ApplyErrorKind,
    >)
        requires
            old(self).well_formed(),
            !old(self).locked,
            deposit.amount@ >= 0,
        ensures
            final(self).well_formed(),
            final(self)@ == step_deposit(old(self)@, transaction_id, deposit).0,
            match r {
                Ok(()) => step_deposit(old(self)@, transaction_id, deposit).1 is None,
                Err(kind) => step_deposit(old(self)@, transaction_id, deposit).1 == Some(kind),
            },
    {
        if !self.is_transaction_in_order(transaction_id) {
            return Ok(());
        }

        let new_total = match self.total_balance.checked_add(deposit.amount) {
            Some(new_total) => new_total,
            None => {
                return Err(ApplyErrorKind::BalanceOverflow);
            },
        };

        self.total_balance = new_total;
        self.available_balance = self.available_balance.add(deposit.amount);
        self.applied_deposits.insert(transaction_id, deposit);
        self.last_transaction_id = Some(transaction_id);

        proof {
            assert(self@ =~= step_deposit(old(self)@, transaction_id, deposit).0);
        }
        Ok(())
    }

    /// Removes an in-order withdrawal from the available and total balances,
    /// once the available balance is known to cover it.
    fn apply_withdrawal(&mut self, transaction_id: TransactionId, withdrawal: Withdrawal) -> (r:
        Result<(), ApplyErrorKind>)
        requires
            old(self).well_formed(),
            !old(self).locked,
            withdrawal.amount@ >= 0,
        ensures
            final(self).well_formed(),
            final(self)@ == step_withdrawal(old(self)@, transaction_id, withdrawal).0,
            match r {
                Ok(()) => step_withdrawal(old(self)@, transaction_id, withdrawal).1 is None,
                Err(kind) => step_withdrawal(old(self)@, transaction_id, withdrawal).1 == Some(
                    kind,
                ),
            },
    {
        if !self.is_transaction_in_order(transaction_id) {
            return Ok(());
        }

        if withdrawal.amount.gt(&self.available_balance) {
            return Err(ApplyErrorKind::InsufficientFunds);
        }

        self.available_balance = self.available_balance.sub(withdrawal.amount);
        self.total_balance = self.total_balance.sub(withdrawal.amount);
        self.last_transaction_id = Some(transaction_id);

        proof {
            assert(self@ =~= step_withdrawal(old(self)@, transaction_id, withdrawal).0);
        }
        Ok(())
    }

    /// Moves an applied deposit under dispute: its amount leaves the
    /// available balance and enters the held balance. An identifier with no
    /// applied deposit is a silent no-op.
    fn apply_dispute(&mut self, transaction_id: TransactionId) -> (r: Result<(), ApplyErrorKind>)
        requires
            old(self).well_formed(),
            !old(self).locked,
        ensures
            final(self).well_formed(),
            final(self)@ == step_dispute(old(self)@, transaction_id).0,
            match r {
                Ok(()) => step_dispute(old(self)@, transaction_id).1 is None,
                Err(kind) => step_dispute(old(self)@, transaction_id).1 == Some(kind),
            },
    {
        let deposit = match self.applied_deposits.get(&transaction_id) {
            Some(deposit) => *deposit,
            None => {
                return Ok(());
            },
        };

        let new_held = match self.held_balance.checked_add(deposit.amount) {
            Some(new_held) => new_held,
            None => {
                return Err(ApplyErrorKind::HeldBalanceOverflow);
            },
        };

        proof {
            assert(old(self)@.applied.dom().contains(transaction_id));
        }

        self.available_balance = self.available_balance.sub(deposit.amount);
        self.held_balance = new_held;
        self.applied_deposits.remove(&transaction_id);
        self.disputed_deposits.insert(transaction_id, deposit);

        proof {
            lemma_sum_insert(old(self)@.disputed, transaction_id, deposit);
            assert(self@ =~= step_dispute(old(self)@, transaction_id).0);
        }
        Ok(())
    }

    /// Moves a disputed deposit back to applied: its amount leaves the held
    /// balance and returns to the available balance. An identifier with no
    /// disputed deposit is a silent no-op.
    fn apply_resolve(&mut self, transaction_id: TransactionId) -> (r: Result<(), ApplyErrorKind>)
        requires
            old(self).well_formed(),
            !old(self).locked,
        ensures
            final(self).well_formed(),
            final(self)@ == step_resolve(old(self)@, transaction_id).0,
            match r {
                Ok(()) => step_resolve(old(self)@, transaction_id).1 is None,
                Err(kind) => step_resolve(old(self)@, transaction_id).1 == Some(kind),
            },
    {
        let deposit = match self.disputed_deposits.get(&transaction_id) {
            Some(deposit) => *deposit,
            None => {
                return Ok(());
            },
        };

        proof {
            assert(old(self)@.disputed.dom().contains(transaction_id));
            lemma_sum_remove(old(self)@.disputed, transaction_id);
            lemma_sum_nonneg(old(self)@.disputed.remove(transaction_id));
        }

        self.available_balance = self.available_balance.add(deposit.amount);
        self.held_balance = self.held_balance.sub(deposit.amount);
        self.disputed_deposits.remove(&transaction_id);
        self.applied_deposits.insert(transaction_id, deposit);

        proof {
            assert(self@ =~= step_resolve(old(self)@, transaction_id).0);
        }
        Ok(())
    }

    /// Charges back a disputed deposit: its amount leaves the held and total
    /// balances, the deposit is recorded terminally, and the account locks.
    /// An identifier with no disputed deposit is a silent no-op.
    fn apply_chargeback(&mut self, transaction_id: TransactionId) -> (r: Result<
        (),
        ApplyErrorKind,
    >)
        requires
            old(self).well_formed(),
            !old(self).locked,
        ensures
            final(self).well_formed(),
            final(self)@ == step_chargeback(old(self)@, transaction_id).0,
            match r {
                Ok(()) => step_chargeback(old(self)@, transaction_id).1 is None,
                Err(kind) => step_chargeback(old(self)@, transaction_id).1 == Some(kind),
            },
    {
        let deposit = match self.disputed_deposits.get(&transaction_id) {
            Some(deposit) => *deposit,
            None => {
                return Ok(());
            },
        };

        proof {
            assert(old(self)@.disputed.dom().contains(transaction_id));
            lemma_sum_remove(old(self)@.disputed, transaction_id);
            lemma_sum_nonneg(old(self)@.disputed.remove(transaction_id));
        }

        self.held_balance = self.held_balance.sub(deposit.amount);
        self.total_balance = self.total_balance.sub(deposit.amount);
        self.disputed_deposits.remove(&transaction_id);
        self.chargedback_deposits.insert(transaction_id, deposit);
        self.locked = true;

        proof {
            assert(self@ =~= step_chargeback(old(self)@, transaction_id).0);
        }
        Ok(())
    }

    /// Whether a deposit or withdrawal identifier is strictly above the
    /// highwater mark (or the first ever seen).
    fn is_transaction_in_order(&self, transaction_id: TransactionId) -> (r: bool)
        ensures
            r == in_order(self.last_transaction_id, transaction_id),
    {
        match self.last_transaction_id {
            Some(last_transaction_id) => last_transaction_id < transaction_id,
            None => true,
        }
    }
}

} // verus!
