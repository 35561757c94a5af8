//! Word recognizers and decimal rendering.

use crud_core::numbers::{is_float_str, parse_i64};
use crud_core::text::{i64_dec, join_strings, split_words, u64_dec};

#[test]
fn parse_plain_integers() {
    assert_eq!(parse_i64("0"), Some(0));
    assert_eq!(parse_i64("42"), Some(42));
    assert_eq!(parse_i64("-9"), Some(-9));
    assert_eq!(parse_i64("+5"), Some(5));
}

#[test]
fn parse_integer_bounds() {
    assert_eq!(parse_i64("9223372036854775807"), Some(i64::MAX));
    assert_eq!(parse_i64("-9223372036854775808"), Some(i64::MIN));
    assert_eq!(parse_i64("9223372036854775808"), None);
    assert_eq!(parse_i64("-9223372036854775809"), None);
}

#[test]
fn parse_integer_rejects() {
    assert_eq!(parse_i64(""), None);
    assert_eq!(parse_i64("+"), None);
    assert_eq!(parse_i64("-"), None);
    assert_eq!(parse_i64("1.5"), None);
    assert_eq!(parse_i64("12a"), None);
    assert_eq!(parse_i64(" 1"), None);
}

#[test]
fn parse_matches_std_integer_parsing() {
    for s in ["007", "-0", "+12", "99999999999999999999", "1e3", "--1"] {
        assert_eq!(parse_i64(s), s.parse::<i64>().ok(), "word {:?}", s);
    }
}

#[test]
fn float_words_accepted() {
    for s in [
        "1", "1.23", "-9", ".5", "1.", "1e5", "1E-5", "+1.23e+10", "inf", "-inf", "Infinity",
        "NaN", "nan", "1.e3",
    ] {
        assert!(is_float_str(s), "word {:?}", s);
        assert!(s.parse::<f64>().is_ok(), "std disagrees on {:?}", s);
    }
}

#[test]
fn float_words_rejected() {
    for s in ["", "name", ".", "e5", "1e", "1.2.3", "+-1", "in", "infx", "1 2", "0x10"] {
        assert!(!is_float_str(s), "word {:?}", s);
        assert!(s.parse::<f64>().is_err(), "std disagrees on {:?}", s);
    }
}

#[test]
fn decimal_rendering() {
    assert_eq!(u64_dec(0), "0");
    assert_eq!(u64_dec(250), "250");
    assert_eq!(i64_dec(-1), "-1");
    assert_eq!(i64_dec(100), "100");
    assert_eq!(i64_dec(i64::MIN), "-9223372036854775808");
    assert_eq!(i64_dec(i64::MAX), "9223372036854775807");
}

#[test]
fn word_splitting() {
    assert_eq!(split_words("name 1 1.23"), vec!["name", "1", "1.23"]);
    assert_eq!(split_words("  a \t b\n"), vec!["a", "b"]);
    assert_eq!(split_words(""), Vec::<String>::new());
    assert_eq!(split_words(" \u{a0} "), Vec::<String>::new());
}

#[test]
fn joining() {
    let items = vec!["a".to_string(), "b".to_string(), "c".to_string()];
    assert_eq!(join_strings(&items, " OR "), "a OR b OR c");
    assert_eq!(join_strings(&vec!["x".to_string()], ", "), "x");
    assert_eq!(join_strings(&Vec::new(), ", "), "");
}
