//! Accounts and the audit records of balance changes.
use vstd::prelude::*;

verus! {

/// One user's balance in one asset; amounts are integers in the asset's
/// smallest unit.
#[derive(Debug, Clone)]
pub struct Account {
    /// Assigned by the database (0 before insertion).
    pub id: i64,
    pub user_id: i64,
    /// `"USDT"` or `"{market_id}_{outcome}"` such as `"12345_yes"`.
    pub asset: String,
    /// Decimal places of the asset.
    pub precision: u8,
    pub available: i64,
    pub frozen: i64,
    pub locked: i64,
    /// Unix time in milliseconds.
    pub created_at: i64,
    pub updated_at: i64,
}

/// The current Unix time in milliseconds (`chrono::Utc::now().timestamp_millis()`).
/// It depends on the clock, so nothing is stated of it.
#[verifier::external_body]
pub(crate) fn now_millis() -> i64 {
    chrono::Utc::now().timestamp_millis()
}

impl Account {
    /// A new, empty account of `user_id` in `asset`, stamped at `now`.
    pub fn new_at(user_id: i64, asset: String, precision: u8, now: i64) -> (r: Self)
        ensures
            r.id == 0,
            r.user_id == user_id,
            r.asset == asset,
            r.precision == precision,
            r.available == 0,
            r.frozen == 0,
            r.locked == 0,
            r.created_at == now,
            r.updated_at == now,
    {
        Account {
            id: 0,
            user_id,
            asset,
            precision,
            available: 0,
            frozen: 0,
            locked: 0,
            created_at: now,
            updated_at: now,
        }
    }

    /// A new, empty account of `user_id` in `asset`, stamped with the current
    /// time.
    pub fn new(user_id: i64, asset: String, precision: u8) -> (r: Self)
        ensures
            r.id == 0,
            r.user_id == user_id,
            r.asset == asset,
            r.precision == precision,
            r.available == 0,
            r.frozen == 0,
            r.locked == 0,
            r.created_at == r.updated_at,
    {
        let now = now_millis();
        Self::new_at(user_id, asset, precision, now)
    }

    /// Whether the available balance covers `amount`.
    pub fn has_sufficient_available(&self, amount: i64) -> (r: bool)
        ensures
            r == (self.available >= amount),
    {
        self.available >= amount
    }

    /// Whether the frozen balance covers `amount`.
    pub fn has_sufficient_frozen(&self, amount: i64) -> (r: bool)
        ensures
            r == (self.frozen >= amount),
    {
        self.frozen >= amount
    }

    /// Whether the locked balance covers `amount`.
    pub fn has_sufficient_locked(&self, amount: i64) -> (r: bool)
        ensures
            r == (self.locked >= amount),
    {
        self.locked >= amount
    }
}

/// An audit record of one balance change.
#[derive(Debug, Clone)]
pub struct BalanceOperation {
    /// Assigned by the database (0 before insertion).
    pub id: i64,
    pub account_id: i64,
    pub user_id: i64,
    pub asset: String,
    pub operation_type: BalanceOperationType,
    pub amount: i64,
    /// Available balance before and after.
    pub balance_before: i64,
    pub balance_after: i64,
    /// Frozen balance before and after.
    pub frozen_before: i64,
    pub frozen_after: i64,
    pub reason: Option<String>,
    /// The order, trade, transfer or market the change belongs to.
    pub ref_id: Option<String>,
    pub created_at: i64,
}

impl BalanceOperation {
    /// A record stamped at `now`, with no reason and no account yet.
    pub fn new_at(
        user_id: i64,
        asset: &str,
        operation_type: BalanceOperationType,
        amount: i64,
        balance_before: i64,
        balance_after: i64,
        frozen_before: i64,
        frozen_after: i64,
        ref_id: &str,
        now: i64,
    ) -> (r: Self)
        ensures
            r.id == 0,
            r.account_id == 0,
            r.user_id == user_id,
            r.asset@ == asset@,
            r.operation_type == operation_type,
            r.amount == amount,
            r.balance_before == balance_before,
            r.balance_after == balance_after,
            r.frozen_before == frozen_before,
            r.frozen_after == frozen_after,
            r.reason is None,
            r.ref_id matches Some(s) && s@ == ref_id@,
            r.created_at == now,
    {
        BalanceOperation {
            id: 0,
            account_id: 0,
            user_id,
            asset: String::from_str(asset),
            operation_type,
            amount,
            balance_before,
            balance_after,
            frozen_before,
            frozen_after,
            reason: None,
            ref_id: Some(String::from_str(ref_id)),
            created_at: now,
        }
    }

    /// A record stamped with the current time, with no reason and no account
    /// yet.
    pub fn new(
        user_id: i64,
        asset: &str,
        operation_type: BalanceOperationType,
        amount: i64,
        balance_before: i64,
        balance_after: i64,
        frozen_before: i64,
        frozen_after: i64,
        ref_id: &str,
    ) -> (r: Self)
        ensures
            r.id == 0,
            r.account_id == 0,
            r.user_id == user_id,
            r.asset@ == asset@,
            r.operation_type == operation_type,
            r.amount == amount,
            r.balance_before == balance_before,
            r.balance_after == balance_after,
            r.frozen_before == frozen_before,
            r.frozen_after == frozen_after,
            r.reason is None,
            r.ref_id matches Some(s) && s@ == ref_id@,
    {
        let now = now_millis();
        Self::new_at(
            user_id,
            asset,
            operation_type,
            amount,
            balance_before,
            balance_after,
            frozen_before,
            frozen_after,
            ref_id,
            now,
        )
    }

    /// The same record with `reason` attached.
    pub fn with_reason(self, reason: &str) -> (r: Self)
        ensures
            r == (BalanceOperation { reason: r.reason, ..self }),
            r.reason matches Some(s) && s@ == reason@,
    {
        let mut op = self;
        op.reason = Some(String::from_str(reason));
        op
    }
}

/// The kinds of balance change.
#[derive(Debug, Clone, Copy, PartialEq, Eq, Structural)]
pub enum BalanceOperationType {
    Deposit,
    Withdraw,
    /// Held for an open order.
    Freeze,
    /// Released when an order is cancelled.
    Unfreeze,
    /// Consumed by a fill.
    Deduct,
    TransferIn,
    TransferOut,
    Fee,
    /// Held by risk control.
    Lock,
    Unlock,
    /// Payout: outcome tokens exchanged for the base asset.
    Settlement,
}

impl BalanceOperationType {
    /// The name under which the kind is stored.
    pub open spec fn spec_name(self) -> Seq<char> {
        match self {
            BalanceOperationType::Deposit => "deposit"@,
            BalanceOperationType::Withdraw => "withdraw"@,
            BalanceOperationType::Freeze => "freeze"@,
            BalanceOperationType::Unfreeze => "unfreeze"@,
            BalanceOperationType::Deduct => "deduct"@,
            BalanceOperationType::TransferIn => "transfer_in"@,
            BalanceOperationType::TransferOut => "transfer_out"@,
            BalanceOperationType::Fee => "fee"@,
            BalanceOperationType::Lock => "lock"@,
            BalanceOperationType::Unlock => "unlock"@,
            BalanceOperationType::Settlement => "settlement"@,
        }
    }

    /// The kind stored under a name, if any.
    pub open spec fn spec_from_name(s: Seq<char>) -> Option<Self> {
        if s == "deposit"@ {
            Some(BalanceOperationType::Deposit)
        } else if s == "withdraw"@ {
            Some(BalanceOperationType::Withdraw)
        } else if s == "freeze"@ {
            Some(BalanceOperationType::Freeze)
        } else if s == "unfreeze"@ {
            Some(BalanceOperationType::Unfreeze)
        } else if s == "deduct"@ {
            Some(BalanceOperationType::Deduct)
        } else if s == "transfer_in"@ {
            Some(BalanceOperationType::TransferIn)
        } else if s == "transfer_out"@ {
            Some(BalanceOperationType::TransferOut)
        } else if s == "fee"@ {
            Some(BalanceOperationType::Fee)
        } else if s == "lock"@ {
            Some(BalanceOperationType::Lock)
        } else if s == "unlock"@ {
            Some(BalanceOperationType::Unlock)
        } else if s == "settlement"@ {
            Some(BalanceOperationType::Settlement)
        } else {
            None
        }
    }

    /// The name under which the kind is stored, such as `"freeze"`.
    pub fn as_str(&self) -> (r: &'static str)
        ensures
            r@ == self.spec_name(),
    {
        match self {
            BalanceOperationType::Deposit => "deposit",
            BalanceOperationType::Withdraw => "withdraw",
            BalanceOperationType::Freeze => "freeze",
            BalanceOperationType::Unfreeze => "unfreeze",
            BalanceOperationType::Deduct => "deduct",
            BalanceOperationType::TransferIn => "transfer_in",
            BalanceOperationType::TransferOut => "transfer_out",
            BalanceOperationType::Fee => "fee",
            BalanceOperationType::Lock => "lock",
            BalanceOperationType::Unlock => "unlock",
            BalanceOperationType::Settlement => "settlement",
        }
    }

    /// The kind stored under `s`; `None` for any other text.
    pub fn from_str(s: &str) -> (r: Option<Self>)
        ensures
            r == Self::spec_from_name(s@),
    {
        if crate::strutil::str_eq(s, "deposit") {
            Some(BalanceOperationType::Deposit)
        } else if crate::strutil::str_eq(s, "withdraw") {
            Some(BalanceOperationType::Withdraw)
        } else if crate::strutil::str_eq(s, "freeze") {
            Some(BalanceOperationType::Freeze)
        } else if crate::strutil::str_eq(s, "unfreeze") {
            Some(BalanceOperationType::Unfreeze)
        } else if crate::strutil::str_eq(s, "deduct") {
            Some(BalanceOperationType::Deduct)
        } else if crate::strutil::str_eq(s, "transfer_in") {
            Some(BalanceOperationType::TransferIn)
        } else if crate::strutil::str_eq(s, "transfer_out") {
            Some(BalanceOperationType::TransferOut)
        } else if crate::strutil::str_eq(s, "fee") {
            Some(BalanceOperationType::Fee)
        } else if crate::strutil::str_eq(s, "lock") {
            Some(BalanceOperationType::Lock)
        } else if crate::strutil::str_eq(s, "unlock") {
            Some(BalanceOperationType::Unlock)
        } else if crate::strutil::str_eq(s, "settlement") {
            Some(BalanceOperationType::Settlement)
        } else {
            None
        }
    }
}

/// Reading back the stored name of a kind gives the kind:
/// `from_str(t.as_str()) == Some(t)` for every kind `t`.
pub proof fn lemma_operation_type_name_roundtrip(t: BalanceOperationType)
    ensures
        BalanceOperationType::spec_from_name(t.spec_name()) == Some(t),
{
    reveal_strlit("deposit");
    reveal_strlit("withdraw");
    reveal_strlit("freeze");
    reveal_strlit("unfreeze");
    reveal_strlit("deduct");
    reveal_strlit("transfer_in");
    reveal_strlit("transfer_out");
    reveal_strlit("fee");
    reveal_strlit("lock");
    reveal_strlit("unlock");
    reveal_strlit("settlement");
    assert("deposit"@.len() == 7);
    assert("withdraw"@.len() == 8);
    assert("freeze"@.len() == 6);
    assert("unfreeze"@.len() == 8);
    assert("deduct"@.len() == 6);
    assert("transfer_in"@.len() == 11);
    assert("transfer_out"@.len() == 12);
    assert("fee"@.len() == 3);
    assert("lock"@.len() == 4);
    assert("unlock"@.len() == 6);
    assert("settlement"@.len() == 10);
    assert("withdraw"@[0] != "unfreeze"@[0]);
    assert("freeze"@[0] != "deduct"@[0]);
    assert("freeze"@[0] != "unlock"@[0]);
    assert("deduct"@[0] != "unlock"@[0]);
}

} // verus!

verus! {

/// The kind of a stored record from its stored name; an unknown name is an
/// internal error naming it.
pub fn operation_type_from_row(name: &str) -> (r: Result<BalanceOperationType, crate::error::Error>)
    ensures
        match BalanceOperationType::spec_from_name(name@) {
            Some(t) => r == Ok::<BalanceOperationType, crate::error::Error>(t),
            None => r matches Err(crate::error::Error::Internal(m)) && m@ == "Invalid operation type: "@
                + name@,
        },
{
    match BalanceOperationType::from_str(name) {
        Some(t) => Ok(t),
        None => Err(
            crate::error::Error::Internal(
                String::from_str("Invalid operation type: ").concat(name),
            ),
        ),
    }
}

} // verus!
