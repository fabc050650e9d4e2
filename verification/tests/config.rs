use exchange_core::config::{AssetsConfig, ServiceConfig};

#[test]
fn default_service_and_assets() {
    let s = ServiceConfig::default();
    assert_eq!(s.port, 50019);
    assert_eq!(s.name, "account-service");
    assert_eq!(s.host, "0.0.0.0");
    let a = AssetsConfig::default();
    assert_eq!(a.base.name, "USDT");
    assert_eq!(a.base.precision, 6);
    assert_eq!(a.outcome.precision, 4);
}
