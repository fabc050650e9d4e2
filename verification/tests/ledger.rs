use exchange_core::config::AssetsConfig;
use exchange_core::error::Error;
use exchange_core::ledger;
use exchange_core::models::{Account, BalanceOperationType};
use exchange_core::precision::AssetPrecision;

fn account(available: i64, frozen: i64, locked: i64) -> Account {
    let mut a = Account::new_at(1, "USDT".to_string(), 6, 10);
    a.id = 42;
    a.available = available;
    a.frozen = frozen;
    a.locked = locked;
    a
}

#[test]
fn freeze_moves_available_to_frozen() {
    let c = ledger::freeze(account(100, 5, 0), 1, "USDT", 30, "ord-1", "", 77).unwrap();
    assert_eq!((c.account.available, c.account.frozen, c.account.locked), (70, 35, 0));
    let op = c.operation;
    assert_eq!(op.operation_type, BalanceOperationType::Freeze);
    assert_eq!(op.account_id, 42);
    assert_eq!((op.balance_before, op.balance_after, op.frozen_before, op.frozen_after), (100, 70, 5, 35));
    assert_eq!(op.ref_id.as_deref(), Some("ord-1"));
    assert_eq!(op.reason, None);
    assert_eq!(op.created_at, 77);
}

#[test]
fn freeze_refusals() {
    match ledger::freeze(account(10, 0, 0), 1, "USDT", 0, "o", "", 0) {
        Err(Error::AmountInvalid(m)) => assert_eq!(m, "Amount must be positive: 0"),
        other => panic!("unexpected {:?}", other.map(|c| c.account.available)),
    }
    match ledger::freeze(account(10, 0, 0), 1, "USDT", -4, "o", "", 0) {
        Err(Error::AmountInvalid(m)) => assert_eq!(m, "Amount must be positive: -4"),
        _ => panic!("expected AmountInvalid"),
    }
    assert!(matches!(
        ledger::freeze(account(10, 0, 0), 1, "USDT", 11, "o", "", 0),
        Err(Error::InsufficientBalance(10, 11))
    ));
    assert!(matches!(
        ledger::check_and_freeze(account(10, 0, 0), 1, "USDT", 11, "o", "", 0),
        Err(Error::InsufficientBalance(10, 11))
    ));
}

#[test]
fn unfreeze_undoes_freeze() {
    let a = account(100, 5, 2);
    let c = ledger::freeze(a, 1, "USDT", 40, "o", "place", 1).unwrap();
    assert_eq!(c.operation.reason.as_deref(), Some("place"));
    let d = ledger::unfreeze(Some(c.account), 1, "USDT", 40, "o", "cancel", 2).unwrap();
    assert_eq!((d.account.available, d.account.frozen, d.account.locked), (100, 5, 2));
    assert_eq!(d.operation.operation_type, BalanceOperationType::Unfreeze);
}

#[test]
fn unfreeze_refusals() {
    match ledger::unfreeze(None, 9, "BTC", 1, "o", "", 0) {
        Err(Error::AccountNotFound(9, asset)) => assert_eq!(asset, "BTC"),
        _ => panic!("expected AccountNotFound"),
    }
    assert!(matches!(
        ledger::unfreeze(Some(account(0, 3, 0)), 1, "USDT", 4, "o", "", 0),
        Err(Error::InsufficientFrozen(3, 4))
    ));
    assert!(matches!(ledger::unfreeze(None, 9, "BTC", 0, "o", "", 0), Err(Error::AmountInvalid(_))));
}

#[test]
fn freeze_and_deduct_consumes_frozen() {
    let c = ledger::freeze_and_deduct(Some(account(10, 50, 0)), 1, "USDT", 20, "o", "fill", 3).unwrap();
    assert_eq!((c.account.available, c.account.frozen), (10, 30));
    assert_eq!(c.operation.operation_type, BalanceOperationType::Deduct);
    assert!(matches!(
        ledger::freeze_and_deduct(Some(account(10, 5, 0)), 1, "USDT", 6, "o", "", 3),
        Err(Error::InsufficientFrozen(5, 6))
    ));
    assert!(matches!(ledger::freeze_and_deduct(None, 1, "USDT", 6, "o", "", 3), Err(Error::AccountNotFound(1, _))));
    let o = ledger::credit_outcome(account(2, 0, 0), 1, "12_yes", 8, "o", 4);
    assert_eq!(o.account.available, 10);
    assert_eq!(o.operation.operation_type, BalanceOperationType::TransferIn);
    assert_eq!((o.operation.balance_before, o.operation.balance_after), (2, 10));
    assert_eq!(o.operation.reason, None);
}

#[test]
fn deposit_and_withdraw() {
    let c = ledger::deposit(account(5, 1, 0), 1, "USDT", 10, "tx", "", 0).unwrap();
    assert_eq!(c.account.available, 15);
    assert_eq!((c.operation.frozen_before, c.operation.frozen_after), (1, 1));
    let w = ledger::withdraw(Some(c.account), 1, "USDT", 10, "wd", "", 0).unwrap();
    assert_eq!(w.account.available, 5);
    assert!(matches!(
        ledger::withdraw(Some(account(5, 0, 0)), 1, "USDT", 6, "wd", "", 0),
        Err(Error::InsufficientBalance(5, 6))
    ));
    assert!(matches!(ledger::deposit(account(5, 0, 0), 1, "USDT", -1, "tx", "", 0), Err(Error::AmountInvalid(_))));
}

#[test]
fn transfer_keeps_sum() {
    let from = account(50, 0, 0);
    let mut to = account(7, 0, 0);
    to.user_id = 2;
    let out = ledger::transfer_out(Some(from), 1, "USDT", 20, "t1", "", 0).unwrap();
    let inn = ledger::transfer_in(to, 2, "USDT", 20, "t1", "", 0);
    assert_eq!(out.account.available + inn.account.available, 57);
    assert_eq!(out.operation.operation_type, BalanceOperationType::TransferOut);
    assert_eq!(inn.operation.operation_type, BalanceOperationType::TransferIn);
    assert_eq!(inn.operation.user_id, 2);
    assert!(matches!(ledger::transfer_out(None, 3, "USDT", 1, "t", "", 0), Err(Error::AccountNotFound(3, _))));
}

#[test]
fn lock_and_unlock() {
    let l = ledger::lock(Some(account(3, 0, 1)), 1, "USDT", 10, "risk", 0).unwrap();
    // a lock does not check the available balance
    assert_eq!((l.account.available, l.account.locked), (-7, 11));
    assert_eq!(l.operation.ref_id.as_deref(), Some(""));
    let u = ledger::unlock(Some(l.account), 1, "USDT", 10, "", 0).unwrap();
    assert_eq!((u.account.available, u.account.locked), (3, 1));
    assert!(matches!(
        ledger::unlock(Some(account(0, 0, 2)), 1, "USDT", 3, "", 0),
        Err(Error::InsufficientLocked(2, 3))
    ));
}

#[test]
fn balance_checks() {
    let c = ledger::check_balance(&account(9, 0, 0), 10).unwrap();
    assert_eq!((c.sufficient, c.balance, c.required), (false, 9, 10));
    assert!(ledger::check_balance(&account(9, 0, 0), 9).unwrap().sufficient);
    assert!(matches!(ledger::check_balance(&account(9, 0, 0), 0), Err(Error::AmountInvalid(_))));
    let f = ledger::check_frozen(Some(account(0, 4, 0)), 1, "USDT", 4).unwrap();
    assert_eq!((f.sufficient, f.balance, f.required), (true, 4, 4));
    let f = ledger::check_frozen(Some(account(0, 4, 0)), 1, "USDT", 5).unwrap();
    assert_eq!((f.sufficient, f.balance, f.required), (false, 4, 5));
    assert!(matches!(ledger::check_frozen(None, 1, "USDT", 1), Err(Error::AccountNotFound(1, _))));
}

#[test]
fn settlement_exchanges_tokens_for_base() {
    let o = ledger::settle_outcome(Some(account(30, 0, 0)), 1, "12_yes", 30, 12, "win", 0).unwrap();
    assert_eq!(o.account.available, 0);
    assert_eq!(o.operation.ref_id.as_deref(), Some("12"));
    assert_eq!(o.operation.operation_type, BalanceOperationType::Settlement);
    let b = ledger::settle_base(account(1, 0, 0), 1, "USDT", 30, -5, "win", 0);
    assert_eq!(b.account.available, 31);
    assert_eq!(b.operation.ref_id.as_deref(), Some("-5"));
    assert!(matches!(
        ledger::settle_outcome(Some(account(3, 0, 0)), 1, "12_yes", 4, 12, "", 0),
        Err(Error::InsufficientBalance(3, 4))
    ));
}

#[test]
fn precision_resolution() {
    let p = AssetPrecision::new(&AssetsConfig::default());
    assert_eq!(ledger::resolve_precision(&p, 8, "USDT"), 8);
    assert_eq!(ledger::resolve_precision(&p, 300, "USDT"), 44);
    assert_eq!(ledger::resolve_precision(&p, 0, "1_yes"), 4);
    assert_eq!(ledger::resolve_precision(&p, -1, "USDT"), 6);
    assert_eq!(ledger::resolve_outcome_precision(&p, 0), 4);
    assert_eq!(ledger::resolve_outcome_precision(&p, 2), 2);
}

#[test]
fn freeze_and_deduct_with_outcome_credit() {
    let p = AssetPrecision::new(&AssetsConfig::default());
    // no outcome asset: only the deduction
    let (base, credit) =
        ledger::freeze_and_deduct_all(&p, Some(account(10, 8, 1)), None, 1, "USDT", 5, "", 9, 0, "ord", "fill", 3).unwrap();
    assert_eq!((base.account.available, base.account.frozen, base.account.locked), (10, 3, 1));
    assert_eq!(base.operation.operation_type, BalanceOperationType::Deduct);
    assert!(credit.is_none());
    // an existing outcome account is credited
    let mut yes = Account::new_at(1, "7_yes".to_string(), 4, 0);
    yes.id = 5;
    yes.available = 2;
    let (_, credit) =
        ledger::freeze_and_deduct_all(&p, Some(account(10, 8, 0)), Some(yes), 1, "USDT", 5, "7_yes", 9, 0, "ord", "", 3).unwrap();
    let c = credit.unwrap();
    assert_eq!((c.account.id, c.account.available), (5, 11));
    assert_eq!(c.operation.operation_type, BalanceOperationType::TransferIn);
    assert_eq!((c.operation.balance_before, c.operation.balance_after, c.operation.account_id), (2, 11, 5));
    assert_eq!(c.operation.reason, None);
    // a missing outcome account is opened with the requested or default precision
    let (_, credit) =
        ledger::freeze_and_deduct_all(&p, Some(account(10, 8, 0)), None, 1, "USDT", 5, "7_no", 9, 2, "ord", "", 3).unwrap();
    let c = credit.unwrap();
    assert_eq!((c.account.id, c.account.asset.as_str(), c.account.precision, c.account.available, c.account.created_at), (0, "7_no", 2, 9, 3));
    let (_, credit) =
        ledger::freeze_and_deduct_all(&p, Some(account(10, 8, 0)), None, 1, "USDT", 5, "7_no", 9, 0, "ord", "", 3).unwrap();
    assert_eq!(credit.unwrap().account.precision, 4);
    // refusals: nothing is credited
    assert!(matches!(
        ledger::freeze_and_deduct_all(&p, Some(account(10, 4, 0)), None, 1, "USDT", 5, "7_no", 9, 0, "ord", "", 3),
        Err(Error::InsufficientFrozen(4, 5))
    ));
    assert!(matches!(
        ledger::freeze_and_deduct_all(&p, None, None, 1, "USDT", 5, "7_no", 9, 0, "ord", "", 3),
        Err(Error::AccountNotFound(1, _))
    ));
}
