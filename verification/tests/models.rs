use exchange_core::models::{Account, BalanceOperation, BalanceOperationType};

#[test]
fn test_account_creation() {
    let account = Account::new(1, "USDT".to_string(), 6);
    assert_eq!(account.user_id, 1);
    assert_eq!(account.asset, "USDT");
    assert_eq!(account.precision, 6);
    assert_eq!(account.available, 0);
    assert_eq!(account.frozen, 0);
}

#[test]
fn test_balance_operation_type() {
    assert_eq!(BalanceOperationType::Freeze.as_str(), "freeze");
    assert_eq!(BalanceOperationType::from_str("freeze"), Some(BalanceOperationType::Freeze));
}

#[test]
fn operation_type_names_read_back() {
    let all = [
        BalanceOperationType::Deposit,
        BalanceOperationType::Withdraw,
        BalanceOperationType::Freeze,
        BalanceOperationType::Unfreeze,
        BalanceOperationType::Deduct,
        BalanceOperationType::TransferIn,
        BalanceOperationType::TransferOut,
        BalanceOperationType::Fee,
        BalanceOperationType::Lock,
        BalanceOperationType::Unlock,
        BalanceOperationType::Settlement,
    ];
    for t in all {
        assert_eq!(BalanceOperationType::from_str(t.as_str()), Some(t));
    }
    assert_eq!(BalanceOperationType::TransferOut.as_str(), "transfer_out");
    assert_eq!(BalanceOperationType::from_str("Freeze"), None);
    assert_eq!(BalanceOperationType::from_str(""), None);
}

#[test]
fn account_new_at_and_sufficiency() {
    let mut a = Account::new_at(7, "12345_yes".to_string(), 4, 1000);
    assert_eq!(a.created_at, 1000);
    assert_eq!(a.updated_at, 1000);
    assert_eq!(a.id, 0);
    assert_eq!(a.locked, 0);
    a.available = 50;
    a.frozen = 20;
    a.locked = 5;
    assert!(a.has_sufficient_available(50));
    assert!(!a.has_sufficient_available(51));
    assert!(a.has_sufficient_frozen(20));
    assert!(!a.has_sufficient_frozen(21));
    assert!(a.has_sufficient_locked(5));
    assert!(!a.has_sufficient_locked(6));
}

#[test]
fn balance_operation_with_reason() {
    let op = BalanceOperation::new_at(1, "USDT", BalanceOperationType::Deposit, 10, 0, 10, 0, 0, "tx1", 99);
    assert_eq!(op.reason, None);
    assert_eq!(op.ref_id.as_deref(), Some("tx1"));
    assert_eq!(op.created_at, 99);
    let op = op.with_reason("airdrop");
    assert_eq!(op.reason.as_deref(), Some("airdrop"));
    assert_eq!(op.amount, 10);
    let op2 = BalanceOperation::new(1, "USDT", BalanceOperationType::Fee, 1, 5, 4, 0, 0, "");
    assert_eq!(op2.ref_id.as_deref(), Some(""));
    assert_eq!(op2.operation_type, BalanceOperationType::Fee);
}
