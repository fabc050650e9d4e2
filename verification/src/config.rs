//! Settings of the account service: where it listens and how many decimal
//! places each kind of asset carries.
use vstd::prelude::*;

verus! {

/// Where the service listens.
#[derive(Debug, Clone)]
pub struct ServiceConfig {
    pub name: String,
    pub host: String,
    pub port: u16,
}

impl Default for ServiceConfig {
    fn default() -> (r: Self)
        ensures
            r.name@ == "account-service"@,
            r.host@ == "0.0.0.0"@,
            r.port == 50019,
    {
        ServiceConfig {
            name: String::from_str("account-service"),
            host: String::from_str("0.0.0.0"),
            port: 50019,
        }
    }
}

/// Decimal places of the base asset and of outcome tokens.
#[derive(Debug, Clone)]
pub struct AssetsConfig {
    pub base: BaseAssetConfig,
    pub outcome: OutcomeAssetConfig,
}

/// The base asset (USDT) and its decimal places.
#[derive(Debug, Clone)]
pub struct BaseAssetConfig {
    pub name: String,
    pub precision: u8,
}

/// Decimal places of outcome tokens.
#[derive(Debug, Clone)]
pub struct OutcomeAssetConfig {
    pub precision: u8,
}

/// Optional deposit and withdrawal limits, as decimal text.
#[derive(Debug, Clone)]
pub struct RiskConfig {
    pub max_deposit: Option<String>,
    pub max_withdraw: Option<String>,
}

impl Default for AssetsConfig {
    fn default() -> (r: Self)
        ensures
            r.base.name@ == "USDT"@,
            r.base.precision == 6,
            r.outcome.precision == 4,
    {
        AssetsConfig {
            base: BaseAssetConfig { name: String::from_str("USDT"), precision: 6 },
            outcome: OutcomeAssetConfig { precision: 4 },
        }
    }
}

} // verus!
