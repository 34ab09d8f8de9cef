use bar_utilities::text::{chars_of, decimal_text, parse_i32, same_text};

#[test]
fn parse_reads_signed_decimal() {
    assert_eq!(parse_i32("0"), Some(0));
    assert_eq!(parse_i32("007"), Some(7));
    assert_eq!(parse_i32("+15"), Some(15));
    assert_eq!(parse_i32("-15"), Some(-15));
    assert_eq!(parse_i32("2147483647"), Some(i32::MAX));
    assert_eq!(parse_i32("-2147483648"), Some(i32::MIN));
}

#[test]
fn parse_refuses_what_is_no_i32() {
    assert_eq!(parse_i32(""), None);
    assert_eq!(parse_i32("+"), None);
    assert_eq!(parse_i32("-"), None);
    assert_eq!(parse_i32("2147483648"), None);
    assert_eq!(parse_i32("-2147483649"), None);
    assert_eq!(parse_i32("99999999999999999999"), None);
    assert_eq!(parse_i32(" 1"), None);
    assert_eq!(parse_i32("1a"), None);
    assert_eq!(parse_i32("--1"), None);
    assert_eq!(parse_i32("١"), None);
}

#[test]
fn parse_agrees_with_std() {
    for s in ["12", "-0", "+0", "000000000000000000042", "4294967296", "-1x", "x"] {
        assert_eq!(parse_i32(s), s.parse::<i32>().ok());
    }
}

#[test]
fn decimal_text_agrees_with_std() {
    for v in [0, 1, 9, 10, 99, 100, 12345, -1, -10, i32::MAX, i32::MIN] {
        assert_eq!(decimal_text(v), v.to_string());
    }
}

#[test]
fn chars_and_equality() {
    assert_eq!(chars_of("añb"), vec!['a', 'ñ', 'b']);
    assert!(same_text("work", "work"));
    assert!(!same_text("work", "works"));
    assert!(!same_text("work", "worm"));
}
