//! The decisions of the account service's balance endpoints.
//!
//! Each endpoint fetches an account, decides, then writes the account and an
//! audit record. The functions here are the deciding step: they take the
//! account as fetched (`None` where it must exist and does not), the request
//! and the current time, and give the account to store and the record to
//! append, or the error to answer with.
use vstd::prelude::*;
use crate::error::Error;
use crate::models::{Account, BalanceOperation, BalanceOperationType};
use crate::numtext::{i64_to_string, int_to_decimal};
use crate::precision::AssetPrecision;

verus! {

/// An accepted balance change: the account to store and its audit record.
#[derive(Debug)]
pub struct BalanceChange {
    pub account: Account,
    pub operation: BalanceOperation,
}

/// The answer to a balance check.
#[derive(Debug, Clone, Copy, PartialEq, Eq, Structural)]
pub struct BalanceCheck {
    pub sufficient: bool,
    /// The balance that was checked (available or frozen).
    pub balance: i64,
    pub required: i64,
}

// ---------- balance transitions ----------

pub open spec fn with_balances(a: Account, available: int, frozen: int, locked: int) -> Account {
    Account { available: available as i64, frozen: frozen as i64, locked: locked as i64, ..a }
}

/// `amount` moves from available to frozen.
pub open spec fn frozen_by(a: Account, amount: i64) -> Account {
    with_balances(a, a.available - amount, a.frozen + amount, a.locked as int)
}

/// `amount` moves from frozen back to available.
pub open spec fn unfrozen_by(a: Account, amount: i64) -> Account {
    with_balances(a, a.available + amount, a.frozen - amount, a.locked as int)
}

/// `amount` leaves the frozen balance.
pub open spec fn deducted_by(a: Account, amount: i64) -> Account {
    with_balances(a, a.available as int, a.frozen - amount, a.locked as int)
}

/// `amount` is added to the available balance.
pub open spec fn credited_by(a: Account, amount: i64) -> Account {
    with_balances(a, a.available + amount, a.frozen as int, a.locked as int)
}

/// `amount` leaves the available balance.
pub open spec fn debited_by(a: Account, amount: i64) -> Account {
    with_balances(a, a.available - amount, a.frozen as int, a.locked as int)
}

/// `amount` moves from available to locked.
pub open spec fn locked_by(a: Account, amount: i64) -> Account {
    with_balances(a, a.available - amount, a.frozen as int, a.locked + amount)
}

/// `amount` moves from locked back to available.
pub open spec fn unlocked_by(a: Account, amount: i64) -> Account {
    with_balances(a, a.available + amount, a.frozen as int, a.locked - amount)
}

pub open spec fn fits(v: int) -> bool {
    i64::MIN <= v <= i64::MAX
}

/// The sum of an account's balances.
pub open spec fn total(a: Account) -> int {
    a.available + a.frozen + a.locked
}

// ---------- errors and records ----------

pub open spec fn amount_invalid_message(amount: i64) -> Seq<char> {
    "Amount must be positive: "@ + int_to_decimal(amount as int)
}

pub open spec fn is_amount_invalid(e: Error, amount: i64) -> bool {
    e matches Error::AmountInvalid(m) && m@ == amount_invalid_message(amount)
}

pub open spec fn is_not_found(e: Error, user_id: i64, asset: Seq<char>) -> bool {
    e matches Error::AccountNotFound(u, a) && u == user_id && a@ == asset
}

/// `op` records the change from `before` to `after`.
pub open spec fn records(
    op: BalanceOperation,
    before: Account,
    after: Account,
    user_id: i64,
    asset: Seq<char>,
    kind: BalanceOperationType,
    amount: i64,
    ref_id: Seq<char>,
    reason: Seq<char>,
    now: i64,
) -> bool {
    &&& op.id == 0
    &&& op.account_id == before.id
    &&& op.user_id == user_id
    &&& op.asset@ == asset
    &&& op.operation_type == kind
    &&& op.amount == amount
    &&& op.balance_before == before.available
    &&& op.balance_after == after.available
    &&& op.frozen_before == before.frozen
    &&& op.frozen_after == after.frozen
    &&& op.ref_id matches Some(s) && s@ == ref_id
    &&& if reason.len() == 0 {
        op.reason is None
    } else {
        op.reason matches Some(s) && s@ == reason
    }
    &&& op.created_at == now
}

/// The change `before` to `after` with its record.
pub open spec fn is_change(
    c: BalanceChange,
    before: Account,
    after: Account,
    user_id: i64,
    asset: Seq<char>,
    kind: BalanceOperationType,
    amount: i64,
    ref_id: Seq<char>,
    reason: Seq<char>,
    now: i64,
) -> bool {
    c.account == after && records(
        c.operation,
        before,
        after,
        user_id,
        asset,
        kind,
        amount,
        ref_id,
        reason,
        now,
    )
}

/// The request was refused for its amount.
pub open spec fn refused_amount(r: Result<BalanceChange, Error>, amount: i64) -> bool {
    match r {
        Err(e) => is_amount_invalid(e, amount),
        Ok(_) => false,
    }
}

/// The request was refused because the account does not exist.
pub open spec fn refused_not_found(r: Result<BalanceChange, Error>, user_id: i64, asset: Seq<
    char,
>) -> bool {
    match r {
        Err(e) => is_not_found(e, user_id, asset),
        Ok(_) => false,
    }
}

/// The request was accepted with the change `before` to `after`.
pub open spec fn accepted(
    r: Result<BalanceChange, Error>,
    before: Account,
    after: Account,
    user_id: i64,
    asset: Seq<char>,
    kind: BalanceOperationType,
    amount: i64,
    ref_id: Seq<char>,
    reason: Seq<char>,
    now: i64,
) -> bool {
    match r {
        Ok(c) => is_change(c, before, after, user_id, asset, kind, amount, ref_id, reason, now),
        Err(_) => false,
    }
}

/// Checks that an amount is positive.
pub fn validate_amount(amount: i64) -> (r: Result<(), Error>)
    ensures
        amount > 0 ==> r is Ok,
        amount <= 0 ==> (match r {
            Err(e) => is_amount_invalid(e, amount),
            Ok(_) => false,
        }),
{
    if amount <= 0 {
        let mut m = String::from_str("Amount must be positive: ");
        m.append(i64_to_string(amount).as_str());
        return Err(Error::AmountInvalid(m));
    }
    Ok(())
}

fn not_found(user_id: i64, asset: &str) -> (e: Error)
    ensures
        is_not_found(e, user_id, asset@),
{
    Error::AccountNotFound(user_id, String::from_str(asset))
}

fn record(
    before: &Account,
    after: &Account,
    user_id: i64,
    asset: &str,
    kind: BalanceOperationType,
    amount: i64,
    ref_id: &str,
    reason: &str,
    now: i64,
) -> (op: BalanceOperation)
    ensures
        records(op, *before, *after, user_id, asset@, kind, amount, ref_id@, reason@, now),
{
    let mut op = BalanceOperation::new_at(
        user_id,
        asset,
        kind,
        amount,
        before.available,
        after.available,
        before.frozen,
        after.frozen,
        ref_id,
        now,
    );
    op.account_id = before.id;
    if !reason.is_empty() {
        op = op.with_reason(reason);
    }
    op
}

fn set_balances(a: &Account, available: i64, frozen: i64, locked: i64) -> (r: Account)
    ensures
        r == with_balances(*a, available as int, frozen as int, locked as int),
{
    Account {
        id: a.id,
        user_id: a.user_id,
        asset: a.asset.clone(),
        precision: a.precision,
        available,
        frozen,
        locked,
        created_at: a.created_at,
        updated_at: a.updated_at,
    }
}

/// The precision to open an account with: the requested one when positive
/// (cut to a byte, as `as u8` does), else the asset's own.
pub fn resolve_precision(precision: &AssetPrecision, requested: i32, asset: &str) -> (r: u8)
    ensures
        r == if requested > 0 {
            requested as u8
        } else {
            precision.precision_of(asset@)
        },
{
    if requested > 0 {
        requested as u8
    } else {
        precision.get_precision(asset)
    }
}

/// The precision to open an outcome-token account with: the requested one
/// when positive (cut to a byte), else the default outcome precision.
pub fn resolve_outcome_precision(precision: &AssetPrecision, requested: i32) -> (r: u8)
    ensures
        r == if requested > 0 {
            requested as u8
        } else {
            precision.spec_outcome()
        },
{
    if requested > 0 {
        requested as u8
    } else {
        precision.outcome_precision()
    }
}

// ---------- endpoints ----------

/// Freeze: hold `amount` of the available balance for an order.
/// Refused for a non-positive amount, or when the available balance is
/// short.
pub fn freeze(
    account: Account,
    user_id: i64,
    asset: &str,
    amount: i64,
    order_id: &str,
    reason: &str,
    now: i64,
) -> (r: Result<BalanceChange, Error>)
    requires
        amount > 0 && account.available >= amount ==> fits(account.frozen + amount),
    ensures
        if amount <= 0 {
            refused_amount(r, amount)
        } else if account.available < amount {
            r == Err::<BalanceChange, Error>(Error::InsufficientBalance(account.available, amount))
        } else {
            accepted(
                r,
                account,
                frozen_by(account, amount),
                user_id,
                asset@,
                BalanceOperationType::Freeze,
                amount,
                order_id@,
                reason@,
                now,
            )
        },
{
    validate_amount(amount)?;
    if !account.has_sufficient_available(amount) {
        return Err(Error::InsufficientBalance(account.available, amount));
    }
    let after = set_balances(
        &account,
        account.available - amount,
        account.frozen + amount,
        account.locked,
    );
    let operation = record(
        &account,
        &after,
        user_id,
        asset,
        BalanceOperationType::Freeze,
        amount,
        order_id,
        reason,
        now,
    );
    Ok(BalanceChange { account: after, operation })
}

/// Check-and-freeze: the endpoint recommended for placing an order; its
/// decision is the same as `freeze`'s. Whether the check and the write
/// happen as one step is up to the store that applies the change.
pub fn check_and_freeze(
    account: Account,
    user_id: i64,
    asset: &str,
    amount: i64,
    order_id: &str,
    reason: &str,
    now: i64,
) -> (r: Result<BalanceChange, Error>)
    requires
        amount > 0 && account.available >= amount ==> fits(account.frozen + amount),
    ensures
        if amount <= 0 {
            refused_amount(r, amount)
        } else if account.available < amount {
            r == Err::<BalanceChange, Error>(Error::InsufficientBalance(account.available, amount))
        } else {
            accepted(
                r,
                account,
                frozen_by(account, amount),
                user_id,
                asset@,
                BalanceOperationType::Freeze,
                amount,
                order_id@,
                reason@,
                now,
            )
        },
{
    freeze(account, user_id, asset, amount, order_id, reason, now)
}

/// Unfreeze: release `amount` of the frozen balance back to available, as
/// when an order is cancelled. Refused for a non-positive amount, a missing
/// account, or a short frozen balance.
pub fn unfreeze(
    found: Option<Account>,
    user_id: i64,
    asset: &str,
    amount: i64,
    order_id: &str,
    reason: &str,
    now: i64,
) -> (r: Result<BalanceChange, Error>)
    requires
        match found {
            Some(a) => amount > 0 && a.frozen >= amount ==> fits(a.available + amount),
            None => true,
        },
    ensures
        if amount <= 0 {
            refused_amount(r, amount)
        } else {
            match found {
                None => refused_not_found(r, user_id, asset@),
                Some(a) => if a.frozen < amount {
                    r == Err::<BalanceChange, Error>(Error::InsufficientFrozen(a.frozen, amount))
                } else {
                    accepted(
                        r,
                        a,
                        unfrozen_by(a, amount),
                        user_id,
                        asset@,
                        BalanceOperationType::Unfreeze,
                        amount,
                        order_id@,
                        reason@,
                        now,
                    )
                },
            }
        },
{
    validate_amount(amount)?;
    let account = match found {
        Some(a) => a,
        None => return Err(not_found(user_id, asset)),
    };
    if !account.has_sufficient_frozen(amount) {
        return Err(Error::InsufficientFrozen(account.frozen, amount));
    }
    let after = set_balances(
        &account,
        account.available + amount,
        account.frozen - amount,
        account.locked,
    );
    let operation = record(
        &account,
        &after,
        user_id,
        asset,
        BalanceOperationType::Unfreeze,
        amount,
        order_id,
        reason,
        now,
    );
    Ok(BalanceChange { account: after, operation })
}

/// Freeze-and-deduct, first step: a fill consumes `freeze_amount` of the
/// frozen base balance. The amount is not checked for sign. Refused for a
/// missing account or a short frozen balance.
pub fn freeze_and_deduct(
    found: Option<Account>,
    user_id: i64,
    asset: &str,
    freeze_amount: i64,
    order_id: &str,
    reason: &str,
    now: i64,
) -> (r: Result<BalanceChange, Error>)
    requires
        match found {
            Some(a) => a.frozen >= freeze_amount ==> fits(a.frozen - freeze_amount),
            None => true,
        },
    ensures
        match found {
            None => refused_not_found(r, user_id, asset@),
            Some(a) => if a.frozen < freeze_amount {
                r == Err::<BalanceChange, Error>(Error::InsufficientFrozen(a.frozen, freeze_amount))
            } else {
                accepted(
                    r,
                    a,
                    deducted_by(a, freeze_amount),
                    user_id,
                    asset@,
                    BalanceOperationType::Deduct,
                    freeze_amount,
                    order_id@,
                    reason@,
                    now,
                )
            },
        },
{
    let account = match found {
        Some(a) => a,
        None => return Err(not_found(user_id, asset)),
    };
    if !account.has_sufficient_frozen(freeze_amount) {
        return Err(Error::InsufficientFrozen(account.frozen, freeze_amount));
    }
    let after = set_balances(
        &account,
        account.available,
        account.frozen - freeze_amount,
        account.locked,
    );
    let operation = record(
        &account,
        &after,
        user_id,
        asset,
        BalanceOperationType::Deduct,
        freeze_amount,
        order_id,
        reason,
        now,
    );
    Ok(BalanceChange { account: after, operation })
}

/// Freeze-and-deduct, second step (when an outcome asset is named): the
/// buyer's outcome-token account receives `outcome_amount`, recorded as a
/// transfer in, without a reason.
pub fn credit_outcome(
    account: Account,
    user_id: i64,
    outcome_asset: &str,
    outcome_amount: i64,
    order_id: &str,
    now: i64,
) -> (c: BalanceChange)
    requires
        fits(account.available + outcome_amount),
    ensures
        is_change(
            c,
            account,
            credited_by(account, outcome_amount),
            user_id,
            outcome_asset@,
            BalanceOperationType::TransferIn,
            outcome_amount,
            order_id@,
            Seq::empty(),
            now,
        ),
{
    let after = set_balances(
        &account,
        account.available + outcome_amount,
        account.frozen,
        account.locked,
    );
    proof {
        reveal_strlit("");
        assert(""@ =~= Seq::<char>::empty());
    }
    let operation = record(
        &account,
        &after,
        user_id,
        outcome_asset,
        BalanceOperationType::TransferIn,
        outcome_amount,
        order_id,
        "",
        now,
    );
    BalanceChange { account: after, operation }
}

/// `b` is a newly opened account: no id yet, the given owner, asset and
/// precision, empty balances, stamped at `now`.
pub open spec fn is_opened(b: Account, user_id: i64, asset: Seq<char>, precision: u8, now: i64) -> bool {
    &&& b.id == 0
    &&& b.user_id == user_id
    &&& b.asset@ == asset
    &&& b.precision == precision
    &&& b.available == 0
    &&& b.frozen == 0
    &&& b.locked == 0
    &&& b.created_at == now
    &&& b.updated_at == now
}

/// `c` credits `amount` of outcome tokens to the account `before`, recorded
/// as a transfer in without a reason.
pub open spec fn is_outcome_credit(
    c: BalanceChange,
    before: Account,
    user_id: i64,
    outcome_asset: Seq<char>,
    amount: i64,
    order_id: Seq<char>,
    now: i64,
) -> bool {
    is_change(
        c,
        before,
        credited_by(before, amount),
        user_id,
        outcome_asset,
        BalanceOperationType::TransferIn,
        amount,
        order_id,
        Seq::empty(),
        now,
    )
}

/// The outcome part of a fill: nothing when no outcome asset is named;
/// else the credit of `amount` to the outcome account, or to a newly opened
/// one (with `opened_precision`) when there is none.
pub open spec fn credits_outcome(
    c2: Option<BalanceChange>,
    outcome: Option<Account>,
    user_id: i64,
    outcome_asset: Seq<char>,
    amount: i64,
    opened_precision: u8,
    order_id: Seq<char>,
    now: i64,
) -> bool {
    if outcome_asset.len() == 0 {
        c2 is None
    } else {
        match c2 {
            None => false,
            Some(c) => match outcome {
                Some(o) => is_outcome_credit(c, o, user_id, outcome_asset, amount, order_id, now),
                None => exists|b: Account|
                    is_opened(b, user_id, outcome_asset, opened_precision, now)
                        && #[trigger] is_outcome_credit(c, b, user_id, outcome_asset, amount, order_id, now),
            },
        }
    }
}

/// Freeze-and-deduct, whole decision: a fill consumes `freeze_amount` of
/// the frozen base balance (as `freeze_and_deduct` decides) and, when an
/// outcome asset is named, credits `outcome_amount` of it to the buyer
/// (as `credit_outcome` does). `outcome` is the buyer's outcome-token
/// account as it stands, `None` when it does not exist yet; it is then
/// opened empty with the requested precision, or the default outcome
/// precision.
pub fn freeze_and_deduct_all(
    precision: &AssetPrecision,
    found: Option<Account>,
    outcome: Option<Account>,
    user_id: i64,
    asset: &str,
    freeze_amount: i64,
    outcome_asset: &str,
    outcome_amount: i64,
    requested_outcome_precision: i32,
    order_id: &str,
    reason: &str,
    now: i64,
) -> (r: Result<(BalanceChange, Option<BalanceChange>), Error>)
    requires
        match found {
            Some(a) => a.frozen >= freeze_amount ==> fits(a.frozen - freeze_amount),
            None => true,
        },
        match (found, outcome) {
            (Some(a), Some(o)) => a.frozen >= freeze_amount && outcome_asset@.len() > 0 ==> fits(
                o.available + outcome_amount,
            ),
            _ => true,
        },
    ensures
        match found {
            None => match r {
                Err(e) => is_not_found(e, user_id, asset@),
                Ok(_) => false,
            },
            Some(a) => if a.frozen < freeze_amount {
                r == Err::<(BalanceChange, Option<BalanceChange>), Error>(
                    Error::InsufficientFrozen(a.frozen, freeze_amount),
                )
            } else {
                r matches Ok((c1, c2)) && is_change(
                    c1,
                    a,
                    deducted_by(a, freeze_amount),
                    user_id,
                    asset@,
                    BalanceOperationType::Deduct,
                    freeze_amount,
                    order_id@,
                    reason@,
                    now,
                ) && credits_outcome(
                    c2,
                    outcome,
                    user_id,
                    outcome_asset@,
                    outcome_amount,
                    if requested_outcome_precision > 0 {
                        requested_outcome_precision as u8
                    } else {
                        precision.spec_outcome()
                    },
                    order_id@,
                    now,
                )
            },
        },
{
    let base = match freeze_and_deduct(found, user_id, asset, freeze_amount, order_id, reason, now) {
        Ok(c) => c,
        Err(e) => return Err(e),
    };
    if outcome_asset.is_empty() {
        return Ok((base, None));
    }
    let p = resolve_outcome_precision(precision, requested_outcome_precision);
    let account = match outcome {
        Some(o) => o,
        None => Account::new_at(user_id, String::from_str(outcome_asset), p, now),
    };
    let ghost opened = account;
    let credit = credit_outcome(account, user_id, outcome_asset, outcome_amount, order_id, now);
    assert(is_outcome_credit(credit, opened, user_id, outcome_asset@, outcome_amount, order_id@, now));
    Ok((base, Some(credit)))
}

/// Deposit: credit `amount` to the available balance. Refused for a
/// non-positive amount.
pub fn deposit(
    account: Account,
    user_id: i64,
    asset: &str,
    amount: i64,
    tx_id: &str,
    reason: &str,
    now: i64,
) -> (r: Result<BalanceChange, Error>)
    requires
        amount > 0 ==> fits(account.available + amount),
    ensures
        if amount <= 0 {
            refused_amount(r, amount)
        } else {
            accepted(
                r,
                account,
                credited_by(account, amount),
                user_id,
                asset@,
                BalanceOperationType::Deposit,
                amount,
                tx_id@,
                reason@,
                now,
            )
        },
{
    validate_amount(amount)?;
    let after = set_balances(
        &account,
        account.available + amount,
        account.frozen,
        account.locked,
    );
    let operation = record(
        &account,
        &after,
        user_id,
        asset,
        BalanceOperationType::Deposit,
        amount,
        tx_id,
        reason,
        now,
    );
    Ok(BalanceChange { account: after, operation })
}

/// Withdraw: debit `amount` from the available balance. Refused for a
/// non-positive amount, a missing account, or a short available balance.
pub fn withdraw(
    found: Option<Account>,
    user_id: i64,
    asset: &str,
    amount: i64,
    withdraw_id: &str,
    reason: &str,
    now: i64,
) -> (r: Result<BalanceChange, Error>)
    ensures
        if amount <= 0 {
            refused_amount(r, amount)
        } else {
            match found {
                None => refused_not_found(r, user_id, asset@),
                Some(a) => if a.available < amount {
                    r == Err::<BalanceChange, Error>(Error::InsufficientBalance(a.available, amount))
                } else {
                    accepted(
                        r,
                        a,
                        debited_by(a, amount),
                        user_id,
                        asset@,
                        BalanceOperationType::Withdraw,
                        amount,
                        withdraw_id@,
                        reason@,
                        now,
                    )
                },
            }
        },
{
    validate_amount(amount)?;
    let account = match found {
        Some(a) => a,
        None => return Err(not_found(user_id, asset)),
    };
    if !account.has_sufficient_available(amount) {
        return Err(Error::InsufficientBalance(account.available, amount));
    }
    let after = set_balances(
        &account,
        account.available - amount,
        account.frozen,
        account.locked,
    );
    let operation = record(
        &account,
        &after,
        user_id,
        asset,
        BalanceOperationType::Withdraw,
        amount,
        withdraw_id,
        reason,
        now,
    );
    Ok(BalanceChange { account: after, operation })
}

/// Transfer, first step: debit `amount` from the sender's available
/// balance. Refused for a non-positive amount, a missing sender account, or
/// a short available balance.
pub fn transfer_out(
    found: Option<Account>,
    from_user_id: i64,
    asset: &str,
    amount: i64,
    transfer_id: &str,
    reason: &str,
    now: i64,
) -> (r: Result<BalanceChange, Error>)
    ensures
        if amount <= 0 {
            refused_amount(r, amount)
        } else {
            match found {
                None => refused_not_found(r, from_user_id, asset@),
                Some(a) => if a.available < amount {
                    r == Err::<BalanceChange, Error>(Error::InsufficientBalance(a.available, amount))
                } else {
                    accepted(
                        r,
                        a,
                        debited_by(a, amount),
                        from_user_id,
                        asset@,
                        BalanceOperationType::TransferOut,
                        amount,
                        transfer_id@,
                        reason@,
                        now,
                    )
                },
            }
        },
{
    validate_amount(amount)?;
    let account = match found {
        Some(a) => a,
        None => return Err(not_found(from_user_id, asset)),
    };
    if !account.has_sufficient_available(amount) {
        return Err(Error::InsufficientBalance(account.available, amount));
    }
    let after = set_balances(
        &account,
        account.available - amount,
        account.frozen,
        account.locked,
    );
    let operation = record(
        &account,
        &after,
        from_user_id,
        asset,
        BalanceOperationType::TransferOut,
        amount,
        transfer_id,
        reason,
        now,
    );
    Ok(BalanceChange { account: after, operation })
}

/// Transfer, second step: credit `amount` to the receiver's available
/// balance (the account is opened if need be).
pub fn transfer_in(
    account: Account,
    to_user_id: i64,
    asset: &str,
    amount: i64,
    transfer_id: &str,
    reason: &str,
    now: i64,
) -> (c: BalanceChange)
    requires
        fits(account.available + amount),
    ensures
        is_change(
            c,
            account,
            credited_by(account, amount),
            to_user_id,
            asset@,
            BalanceOperationType::TransferIn,
            amount,
            transfer_id@,
            reason@,
            now,
        ),
{
    let after = set_balances(
        &account,
        account.available + amount,
        account.frozen,
        account.locked,
    );
    let operation = record(
        &account,
        &after,
        to_user_id,
        asset,
        BalanceOperationType::TransferIn,
        amount,
        transfer_id,
        reason,
        now,
    );
    BalanceChange { account: after, operation }
}

/// Lock: risk control moves `amount` from available to locked. The
/// available balance is not checked and may go below zero. Refused for a
/// non-positive amount or a missing account.
pub fn lock(
    found: Option<Account>,
    user_id: i64,
    asset: &str,
    amount: i64,
    reason: &str,
    now: i64,
) -> (r: Result<BalanceChange, Error>)
    requires
        match found {
            Some(a) => amount > 0 ==> fits(a.available - amount) && fits(a.locked + amount),
            None => true,
        },
    ensures
        if amount <= 0 {
            refused_amount(r, amount)
        } else {
            match found {
                None => refused_not_found(r, user_id, asset@),
                Some(a) => accepted(
                    r,
                    a,
                    locked_by(a, amount),
                    user_id,
                    asset@,
                    BalanceOperationType::Lock,
                    amount,
                    Seq::empty(),
                    reason@,
                    now,
                ),
            }
        },
{
    validate_amount(amount)?;
    let account = match found {
        Some(a) => a,
        None => return Err(not_found(user_id, asset)),
    };
    let after = set_balances(
        &account,
        account.available - amount,
        account.frozen,
        account.locked + amount,
    );
    proof {
        reveal_strlit("");
        assert(""@ =~= Seq::<char>::empty());
    }
    let operation = record(
        &account,
        &after,
        user_id,
        asset,
        BalanceOperationType::Lock,
        amount,
        "",
        reason,
        now,
    );
    Ok(BalanceChange { account: after, operation })
}

/// Unlock: release `amount` of the locked balance back to available.
/// Refused for a non-positive amount, a missing account, or a short locked
/// balance.
pub fn unlock(
    found: Option<Account>,
    user_id: i64,
    asset: &str,
    amount: i64,
    reason: &str,
    now: i64,
) -> (r: Result<BalanceChange, Error>)
    requires
        match found {
            Some(a) => amount > 0 && a.locked >= amount ==> fits(a.available + amount),
            None => true,
        },
    ensures
        if amount <= 0 {
            refused_amount(r, amount)
        } else {
            match found {
                None => refused_not_found(r, user_id, asset@),
                Some(a) => if a.locked < amount {
                    r == Err::<BalanceChange, Error>(Error::InsufficientLocked(a.locked, amount))
                } else {
                    accepted(
                        r,
                        a,
                        unlocked_by(a, amount),
                        user_id,
                        asset@,
                        BalanceOperationType::Unlock,
                        amount,
                        Seq::empty(),
                        reason@,
                        now,
                    )
                },
            }
        },
{
    validate_amount(amount)?;
    let account = match found {
        Some(a) => a,
        None => return Err(not_found(user_id, asset)),
    };
    if !account.has_sufficient_locked(amount) {
        return Err(Error::InsufficientLocked(account.locked, amount));
    }
    let after = set_balances(
        &account,
        account.available + amount,
        account.frozen,
        account.locked - amount,
    );
    proof {
        reveal_strlit("");
        assert(""@ =~= Seq::<char>::empty());
    }
    let operation = record(
        &account,
        &after,
        user_id,
        asset,
        BalanceOperationType::Unlock,
        amount,
        "",
        reason,
        now,
    );
    Ok(BalanceChange { account: after, operation })
}

/// Check-balance: whether the available balance covers `amount`. Refused for
/// a non-positive amount.
pub fn check_balance(account: &Account, amount: i64) -> (r: Result<BalanceCheck, Error>)
    ensures
        if amount <= 0 {
            match r {
                Err(e) => is_amount_invalid(e, amount),
                Ok(_) => false,
            }
        } else {
            r == Ok::<BalanceCheck, Error>(
                BalanceCheck {
                    sufficient: account.available >= amount,
                    balance: account.available,
                    required: amount,
                },
            )
        },
{
    validate_amount(amount)?;
    Ok(
        BalanceCheck {
            sufficient: account.has_sufficient_available(amount),
            balance: account.available,
            required: amount,
        },
    )
}

/// Check-frozen: whether the frozen balance covers `amount`, with the frozen
/// balance and the amount asked about. Refused for a missing account.
pub fn check_frozen(found: Option<Account>, user_id: i64, asset: &str, amount: i64) -> (r: Result<
    BalanceCheck,
    Error,
>)
    ensures
        match found {
            None => match r {
                Err(e) => is_not_found(e, user_id, asset@),
                Ok(_) => false,
            },
            Some(a) => r == Ok::<BalanceCheck, Error>(
                BalanceCheck { sufficient: a.frozen >= amount, balance: a.frozen, required: amount },
            ),
        },
{
    let account = match found {
        Some(a) => a,
        None => return Err(not_found(user_id, asset)),
    };
    Ok(
        BalanceCheck {
            sufficient: account.has_sufficient_frozen(amount),
            balance: account.frozen,
            required: amount,
        },
    )
}

/// Settle, first step: the winner's outcome tokens are consumed. Refused for
/// a non-positive amount, a missing outcome account, or a short available
/// balance. The record refers to the market by its number.
pub fn settle_outcome(
    found: Option<Account>,
    user_id: i64,
    outcome_asset: &str,
    outcome_amount: i64,
    market_id: i64,
    reason: &str,
    now: i64,
) -> (r: Result<BalanceChange, Error>)
    ensures
        if outcome_amount <= 0 {
            refused_amount(r, outcome_amount)
        } else {
            match found {
                None => refused_not_found(r, user_id, outcome_asset@),
                Some(a) => if a.available < outcome_amount {
                    r == Err::<BalanceChange, Error>(
                        Error::InsufficientBalance(a.available, outcome_amount),
                    )
                } else {
                    accepted(
                        r,
                        a,
                        debited_by(a, outcome_amount),
                        user_id,
                        outcome_asset@,
                        BalanceOperationType::Settlement,
                        outcome_amount,
                        int_to_decimal(market_id as int),
                        reason@,
                        now,
                    )
                },
            }
        },
{
    validate_amount(outcome_amount)?;
    let account = match found {
        Some(a) => a,
        None => return Err(not_found(user_id, outcome_asset)),
    };
    if !account.has_sufficient_available(outcome_amount) {
        return Err(Error::InsufficientBalance(account.available, outcome_amount));
    }
    let after = set_balances(
        &account,
        account.available - outcome_amount,
        account.frozen,
        account.locked,
    );
    let market = i64_to_string(market_id);
    let operation = record(
        &account,
        &after,
        user_id,
        outcome_asset,
        BalanceOperationType::Settlement,
        outcome_amount,
        market.as_str(),
        reason,
        now,
    );
    Ok(BalanceChange { account: after, operation })
}

/// Settle, second step: the base-asset account receives the payout
/// `base_amount` (not checked for sign).
pub fn settle_base(
    account: Account,
    user_id: i64,
    base_asset: &str,
    base_amount: i64,
    market_id: i64,
    reason: &str,
    now: i64,
) -> (c: BalanceChange)
    requires
        fits(account.available + base_amount),
    ensures
        is_change(
            c,
            account,
            credited_by(account, base_amount),
            user_id,
            base_asset@,
            BalanceOperationType::Settlement,
            base_amount,
            int_to_decimal(market_id as int),
            reason@,
            now,
        ),
{
    let after = set_balances(
        &account,
        account.available + base_amount,
        account.frozen,
        account.locked,
    );
    let market = i64_to_string(market_id);
    let operation = record(
        &account,
        &after,
        user_id,
        base_asset,
        BalanceOperationType::Settlement,
        base_amount,
        market.as_str(),
        reason,
        now,
    );
    BalanceChange { account: after, operation }
}

} // verus!

verus! {

/// No balance of the account is negative.
pub open spec fn nonnegative(a: Account) -> bool {
    a.available >= 0 && a.frozen >= 0 && a.locked >= 0
}

/// Unfreezing what was frozen restores the account: after an accepted
/// freeze of `x`, an unfreeze of `x` is accepted and gives back the balances
/// from before the freeze.
pub proof fn law_unfreeze_undoes_freeze(a: Account, x: i64)
    requires
        x > 0,
        a.available >= x,
        a.frozen >= 0,
        fits(a.frozen + x),
    ensures
        frozen_by(a, x).frozen >= x,
        fits(frozen_by(a, x).available + x),
        unfrozen_by(frozen_by(a, x), x) == a,
{
}

/// Unlocking what was locked restores the account.
pub proof fn law_unlock_undoes_lock(a: Account, x: i64)
    requires
        x > 0,
        a.locked >= 0,
        fits(a.available - x),
        fits(a.locked + x),
    ensures
        locked_by(a, x).locked >= x,
        fits(locked_by(a, x).available + x),
        unlocked_by(locked_by(a, x), x) == a,
{
}

/// Withdrawing what was deposited restores the account: after a deposit of
/// `x` into an account with no negative available balance, a withdrawal of
/// `x` is accepted and gives back the balances from before.
pub proof fn law_withdraw_undoes_deposit(a: Account, x: i64)
    requires
        x > 0,
        a.available >= 0,
        fits(a.available + x),
    ensures
        credited_by(a, x).available >= x,
        debited_by(credited_by(a, x), x) == a,
{
}

/// Freezing, unfreezing, locking and unlocking only move value between an
/// account's balances: the sum of available, frozen and locked is kept.
pub proof fn law_moves_keep_total(a: Account, x: i64)
    ensures
        fits(a.available - x) && fits(a.frozen + x) ==> total(frozen_by(a, x)) == total(a),
        fits(a.available + x) && fits(a.frozen - x) ==> total(unfrozen_by(a, x)) == total(a),
        fits(a.available - x) && fits(a.locked + x) ==> total(locked_by(a, x)) == total(a),
        fits(a.available + x) && fits(a.locked - x) ==> total(unlocked_by(a, x)) == total(a),
{
}

/// A transfer between two accounts keeps the sum of their available
/// balances: the sender's debit and the receiver's credit cancel.
pub proof fn law_transfer_keeps_sum(from: Account, to: Account, x: i64)
    requires
        x > 0,
        from.available >= x,
        fits(to.available + x),
    ensures
        debited_by(from, x).available + credited_by(to, x).available == from.available
            + to.available,
        debited_by(from, x).frozen == from.frozen,
        credited_by(to, x).frozen == to.frozen,
{
}

/// Every accepted freeze, unfreeze, withdrawal, transfer out, unlock,
/// deduction and outcome settlement keeps an account free of negative
/// balances, as do credits of a positive amount. (A lock does not check the
/// available balance and may make it negative.)
pub proof fn law_accepted_changes_keep_nonnegative(a: Account, x: i64)
    requires
        nonnegative(a),
    ensures
        x > 0 && a.available >= x && fits(a.frozen + x) ==> nonnegative(frozen_by(a, x)),
        x > 0 && a.frozen >= x && fits(a.available + x) ==> nonnegative(unfrozen_by(a, x)),
        x > 0 && a.available >= x ==> nonnegative(debited_by(a, x)),
        x > 0 && a.locked >= x && fits(a.available + x) ==> nonnegative(unlocked_by(a, x)),
        a.frozen >= x && fits(a.frozen - x) ==> nonnegative(deducted_by(a, x)),
        x > 0 && fits(a.available + x) ==> nonnegative(credited_by(a, x)),
{
}

} // verus!
