use ledger::account::ClientAccount;
use ledger::amount::Amount;
use ledger::error::ApplyErrorKind;
use ledger::transaction::{Deposit, Transaction, TransactionAction, Withdrawal};

fn deposit(client_id: u16, transaction_id: u32, units: i128) -> Transaction {
    Transaction {
        client_id,
        transaction_id,
        action: TransactionAction::Deposit(Deposit {
            amount: Amount::from_units(units),
        }),
    }
}

fn withdrawal(client_id: u16, transaction_id: u32, units: i128) -> Transaction {
    Transaction {
        client_id,
        transaction_id,
        action: TransactionAction::Withdrawal(Withdrawal {
            amount: Amount::from_units(units),
        }),
    }
}

fn total_equals_available_plus_held(account: &ClientAccount) -> bool {
    account.total_balance.units()
        == account.available_balance.units() + account.held_balance.units()
}

#[test]
fn keeps_total_equal_to_available_plus_held() {
    let client_id = 1;
    let mut account = ClientAccount::new(client_id);
    assert!(total_equals_available_plus_held(&account));

    account.apply_transaction(deposit(client_id, 1, 125555)).unwrap();
    assert!(total_equals_available_plus_held(&account));

    account.apply_transaction(withdrawal(client_id, 2, 25555)).unwrap();
    assert!(total_equals_available_plus_held(&account));

    account
        .apply_transaction(Transaction {
            client_id,
            transaction_id: 1,
            action: TransactionAction::Dispute,
        })
        .unwrap();
    assert!(total_equals_available_plus_held(&account));

    account
        .apply_transaction(Transaction {
            client_id,
            transaction_id: 1,
            action: TransactionAction::Chargeback,
        })
        .unwrap();
    assert!(total_equals_available_plus_held(&account));
}

#[test]
fn skips_transaction_with_lower_id_than_highwater_mark() {
    let client_id = 1;
    let mut account = ClientAccount::new(client_id);

    account.apply_transaction(deposit(client_id, 5, 125555)).unwrap();
    account.apply_transaction(deposit(client_id, 3, 99999)).unwrap();

    assert_eq!(Amount::from_units(125555), account.available_balance);
    assert_eq!(Amount::from_units(0), account.held_balance);
    assert_eq!(Amount::from_units(125555), account.total_balance);
}

#[test]
fn locks_account_terminally_after_chargeback() {
    let client_id = 1;
    let mut account = ClientAccount::new(client_id);

    account.apply_transaction(deposit(client_id, 1, 125555)).unwrap();
    account
        .apply_transaction(Transaction {
            client_id,
            transaction_id: 1,
            action: TransactionAction::Dispute,
        })
        .unwrap();
    account
        .apply_transaction(Transaction {
            client_id,
            transaction_id: 1,
            action: TransactionAction::Chargeback,
        })
        .unwrap();

    assert_eq!(Amount::from_units(0), account.available_balance);
    assert_eq!(Amount::from_units(0), account.held_balance);
    assert_eq!(Amount::from_units(0), account.total_balance);
    assert_eq!(true, account.locked);

    let result = account.apply_transaction(deposit(client_id, 2, 10000));
    assert!(result.is_err());
    let error = result.unwrap_err();
    assert_eq!(ApplyErrorKind::AccountLocked, error.kind);
    assert_eq!(
        "Failed to apply deposit with transaction ID 2: Account is locked",
        error.message
    );
}

#[test]
fn skips_dispute_for_transaction_id_never_seen() {
    let client_id = 1;
    let mut account = ClientAccount::new(client_id);

    let result = account.apply_transaction(Transaction {
        client_id,
        transaction_id: 999,
        action: TransactionAction::Dispute,
    });

    assert!(result.is_ok());
    assert_eq!(Amount::from_units(0), account.available_balance);
    assert_eq!(Amount::from_units(0), account.held_balance);
    assert_eq!(Amount::from_units(0), account.total_balance);
    assert_eq!(false, account.locked);
}

#[test]
fn reports_overflow_kind_and_keeps_balances() {
    let client_id = 1;
    let mut account = ClientAccount::new(client_id);

    account
        .apply_transaction(deposit(client_id, 1, 999_999_999_999_999_999_999_999_999_999_999))
        .unwrap();
    let result = account.apply_transaction(deposit(client_id, 2, 1));

    assert!(result.is_err());
    assert_eq!(ApplyErrorKind::BalanceOverflow, result.unwrap_err().kind);
    assert_eq!(Amount::max_value(), account.available_balance);
    assert_eq!(Amount::from_units(0), account.held_balance);
    assert_eq!(Amount::max_value(), account.total_balance);
}

#[test]
fn reports_error_kinds_for_each_failure() {
    let client_id = 1;

    let mut insufficient = ClientAccount::new(client_id);
    let result = insufficient.apply_transaction(withdrawal(client_id, 1, 10000));
    assert_eq!(ApplyErrorKind::InsufficientFunds, result.unwrap_err().kind);

    let mut held_overflow = ClientAccount::new(client_id);
    held_overflow
        .apply_transaction(deposit(client_id, 1, 999_999_999_999_999_999_999_999_999_999_999))
        .unwrap();
    held_overflow
        .apply_transaction(withdrawal(client_id, 2, 999_999_999_999_999_999_999_999_999_999_999))
        .unwrap();
    held_overflow
        .apply_transaction(deposit(client_id, 3, 999_999_999_999_999_999_999_999_999_999_999))
        .unwrap();
    held_overflow
        .apply_transaction(Transaction {
            client_id,
            transaction_id: 1,
            action: TransactionAction::Dispute,
        })
        .unwrap();
    let result = held_overflow.apply_transaction(Transaction {
        client_id,
        transaction_id: 3,
        action: TransactionAction::Dispute,
    });
    assert_eq!(ApplyErrorKind::HeldBalanceOverflow, result.unwrap_err().kind);

    let mut locked = ClientAccount::new(client_id);
    locked.locked = true;
    let result = locked.apply_transaction(deposit(client_id, 1, 10000));
    assert_eq!(ApplyErrorKind::AccountLocked, result.unwrap_err().kind);
}

#[test]
fn describes_transactions_with_multi_digit_ids() {
    let transaction = Transaction {
        client_id: 1,
        transaction_id: 1234567890,
        action: TransactionAction::Dispute,
    };
    assert_eq!(
        "dispute for transaction ID 1234567890",
        transaction.to_string()
    );

    let transaction = deposit(1, 0, 10000);
    assert_eq!("deposit with transaction ID 0", transaction.to_string());
}

#[test]
fn restores_balances_after_dispute_and_resolve() {
    let client_id = 1;
    let mut account = ClientAccount::new(client_id);

    account.apply_transaction(deposit(client_id, 1, 125555)).unwrap();
    account.apply_transaction(deposit(client_id, 2, 30000)).unwrap();
    account.apply_transaction(withdrawal(client_id, 3, 20000)).unwrap();

    let available_before = account.available_balance;
    let held_before = account.held_balance;
    let total_before = account.total_balance;

    account
        .apply_transaction(Transaction {
            client_id,
            transaction_id: 2,
            action: TransactionAction::Dispute,
        })
        .unwrap();
    account
        .apply_transaction(Transaction {
            client_id,
            transaction_id: 2,
            action: TransactionAction::Resolve,
        })
        .unwrap();

    assert_eq!(available_before, account.available_balance);
    assert_eq!(held_before, account.held_balance);
    assert_eq!(total_before, account.total_balance);
    assert_eq!(false, account.locked);
}
