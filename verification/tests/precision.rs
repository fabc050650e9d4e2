use exchange_core::config::{AssetsConfig, BaseAssetConfig, OutcomeAssetConfig};
use exchange_core::precision::AssetPrecision;

fn create_test_precision() -> AssetPrecision {
    AssetPrecision::new(&AssetsConfig {
        base: BaseAssetConfig { name: "USDT".to_string(), precision: 6 },
        outcome: OutcomeAssetConfig { precision: 4 },
    })
}

#[test]
fn test_is_outcome_asset() {
    assert!(AssetPrecision::is_outcome_asset("12345_yes"));
    assert!(AssetPrecision::is_outcome_asset("67890_no"));
    assert!(!AssetPrecision::is_outcome_asset("USDT"));
    assert!(!AssetPrecision::is_outcome_asset("BTC"));
}

#[test]
fn test_get_precision() {
    let precision = create_test_precision();
    assert_eq!(precision.get_precision("USDT"), 6);
    assert_eq!(precision.get_precision("12345_yes"), 4);
    assert_eq!(precision.get_precision("67890_no"), 4);
}

#[test]
fn test_to_human() {
    let _precision = create_test_precision();
    assert_eq!(AssetPrecision::to_human(1500000, 6), "1.500000");
    assert_eq!(AssetPrecision::to_human(1000000, 4), "100.0000");
    assert_eq!(AssetPrecision::to_human(0, 6), "0.000000");
}

#[test]
fn test_from_human() {
    let _precision = create_test_precision();
    assert_eq!(AssetPrecision::from_human("1.5", 6), Some(1500000));
    assert_eq!(AssetPrecision::from_human("100", 4), Some(1000000));
    assert_eq!(AssetPrecision::from_human("0.123", 4), Some(1230));
}

#[test]
fn test_is_valid_amount() {
    assert!(AssetPrecision::is_valid_amount(100));
    assert!(!AssetPrecision::is_valid_amount(0));
    assert!(!AssetPrecision::is_valid_amount(-100));
}

#[test]
fn outcome_asset_needs_known_outcome_after_first_underscore() {
    assert!(AssetPrecision::is_outcome_asset("1_true"));
    assert!(AssetPrecision::is_outcome_asset("1_false"));
    assert!(!AssetPrecision::is_outcome_asset("1_maybe"));
    assert!(!AssetPrecision::is_outcome_asset("a_b_yes"));
    assert!(!AssetPrecision::is_outcome_asset("_"));
    assert!(AssetPrecision::is_outcome_asset("_no"));
}

#[test]
fn unknown_assets_take_base_precision() {
    let precision = create_test_precision();
    assert_eq!(precision.get_precision("BTC"), 6);
    assert_eq!(precision.base_precision(), 6);
    assert_eq!(precision.outcome_precision(), 4);
}

#[test]
fn to_human_edge_cases() {
    assert_eq!(AssetPrecision::to_human(-1500000, 6), "-1.500000");
    // an amount between -1 and 0 keeps its sign
    assert_eq!(AssetPrecision::to_human(-500000, 6), "-0.500000");
    assert_eq!(AssetPrecision::to_human(-7, 3), "-0.007");
    assert_eq!(AssetPrecision::to_human(5, 0), "5.0");
    assert_eq!(AssetPrecision::to_human(7, 3), "0.007");
    assert_eq!(AssetPrecision::to_human(i64::MIN, 0), "-9223372036854775808.0");
    assert_eq!(AssetPrecision::to_human(i64::MAX, 18), "9.223372036854775807");
}

#[test]
fn from_human_edge_cases() {
    assert_eq!(AssetPrecision::from_human("1.2.3", 2), None);
    assert_eq!(AssetPrecision::from_human("", 2), None);
    assert_eq!(AssetPrecision::from_human("abc", 2), None);
    assert_eq!(AssetPrecision::from_human(".", 4), Some(0));
    assert_eq!(AssetPrecision::from_human("x.5", 1), Some(5));
    assert_eq!(AssetPrecision::from_human("1.x", 1), Some(10));
    assert_eq!(AssetPrecision::from_human("1.56789", 2), Some(156));
    assert_eq!(AssetPrecision::from_human("1.5", 0), Some(1));
    assert_eq!(AssetPrecision::from_human("-2", 3), Some(-2000));
    assert_eq!(AssetPrecision::from_human("+2", 3), Some(2000));
    assert_eq!(AssetPrecision::from_human("1.-5", 4), Some(9500));
    assert_eq!(AssetPrecision::from_human("99999999999999999999", 0), None);
    assert_eq!(AssetPrecision::from_human("-", 0), None);
    assert_eq!(AssetPrecision::from_human("-1.5", 6), Some(-1500000));
    assert_eq!(AssetPrecision::from_human("-0.5", 6), Some(-500000));
    assert_eq!(AssetPrecision::from_human("-.25", 2), Some(-25));
}

#[test]
fn from_human_reads_back_to_human() {
    for (x, p) in [(0i64, 0u8), (1500000, 6), (7, 3), (123456789, 4), (i64::MAX, 18), (42, 0), (-500000, 6), (-1500000, 6), (i64::MIN, 0), (i64::MIN, 18), (-7, 3)] {
        let text = AssetPrecision::to_human(x, p);
        assert_eq!(AssetPrecision::from_human(&text, p), Some(x));
    }
}
