use exchange_core::numtext::{i64_to_string, pad_zeros_into, parse_i64_range, pow10_i64, u64_to_string};

#[test]
fn integers_read_back() {
    for n in [i64::MIN, -1_000_000, -1, 0, 1, 42, i64::MAX] {
        let t = i64_to_string(n);
        assert_eq!(t, n.to_string());
        assert_eq!(parse_i64_range(t.as_bytes(), 0, t.len()), Some(n));
    }
    assert_eq!(u64_to_string(u64::MAX), "18446744073709551615");
}

#[test]
fn parsing_follows_from_str() {
    let p = |s: &str| parse_i64_range(s.as_bytes(), 0, s.len());
    assert_eq!(p("+7"), Some(7));
    assert_eq!(p("-0"), Some(0));
    assert_eq!(p(""), None);
    assert_eq!(p("-"), None);
    assert_eq!(p("1a"), None);
    assert_eq!(p("9223372036854775808"), None);
    assert_eq!(p("-9223372036854775808"), Some(i64::MIN));
    assert_eq!(parse_i64_range(b"x123y", 1, 4), Some(123));
}

#[test]
fn padding_and_powers() {
    let mut s = String::from("1.");
    pad_zeros_into(&mut s, &"5".to_string(), 3);
    assert_eq!(s, "1.005");
    let mut s = String::new();
    pad_zeros_into(&mut s, &"12345".to_string(), 3);
    assert_eq!(s, "12345");
    assert_eq!(pow10_i64(0), 1);
    assert_eq!(pow10_i64(18), 1_000_000_000_000_000_000);
}
