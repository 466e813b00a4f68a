use std::str::FromStr;

use env_macro::numeral::normalize_numeral;
use num_bigint::BigInt;

fn norm_ok(s: &str) -> String {
    match normalize_numeral(s) {
        Ok(t) => t,
        Err(e) => panic!("expected {:?} to normalize, got error on {:?}", s, e.text),
    }
}

fn norm_err_text(s: &str) -> String {
    match normalize_numeral(s) {
        Ok(t) => panic!("expected {:?} to be rejected, got {:?}", s, t),
        Err(e) => e.text,
    }
}

#[test]
fn canonical_results() {
    assert_eq!(norm_ok("42"), "42");
    assert_eq!(norm_ok("007"), "7");
    assert_eq!(norm_ok("+42"), "42");
    assert_eq!(norm_ok("-7"), "-7");
    assert_eq!(norm_ok("-007"), "-7");
    assert_eq!(norm_ok("0"), "0");
    assert_eq!(norm_ok("000"), "0");
    assert_eq!(norm_ok("+0"), "0");
    assert_eq!(norm_ok("-0"), "0");
    assert_eq!(norm_ok("100"), "100");
}

#[test]
fn unbounded_magnitude_is_kept() {
    let big = "123456789012345678901234567890123456789012345678901234567890";
    assert_eq!(norm_ok(big), big);
    let padded = format!("000{}", big);
    assert_eq!(norm_ok(&padded), big);
    let negative = format!("-000{}", big);
    assert_eq!(norm_ok(&negative), format!("-{}", big));
}

#[test]
fn normalization_is_value_preserving() {
    let samples = [
        "0", "000", "+0", "-0", "42", "+42", "-42", "007", "-007", "900",
        "123456789012345678901234567890", "-00123456789012345678901234567890",
    ];
    for s in samples {
        let normalized = norm_ok(s);
        let direct = BigInt::from_str(s).expect("sample should parse as BigInt");
        let reparsed = BigInt::from_str(&normalized).expect("normalized text should parse");
        assert_eq!(reparsed, direct, "value changed for {:?}", s);
    }
}

#[test]
fn rejects_non_numeric_and_keeps_text() {
    let samples = [
        "", "+", "-", "abc", "1a2", "1.5", "1e3", " 1", "1 ", "--1", "+-1", "0x1f", "four",
    ];
    for s in samples {
        assert_eq!(norm_err_text(s), s, "offending text not kept for {:?}", s);
        assert!(BigInt::from_str(s).is_err(), "BigInt accepts {:?} but normalize rejects", s);
    }
    // A separator is rejected here even though BigInt's own parser would
    // take it: integer text admits no separators.
    assert_eq!(norm_err_text("12_3"), "12_3");
}
