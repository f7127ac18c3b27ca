use library_manager::text::{decimal_string, join, parse_i32, str_is_blank};

#[test]
fn blank_texts() {
    assert!(str_is_blank(""));
    assert!(str_is_blank("   \t\n"));
    assert!(str_is_blank("\u{3000}\u{a0}"));
    assert!(!str_is_blank(" a "));
    assert!(!str_is_blank("x"));
}

#[test]
fn decimal_rendering() {
    assert_eq!(decimal_string(0), "0");
    assert_eq!(decimal_string(7), "7");
    assert_eq!(decimal_string(1234), "1234");
    assert_eq!(decimal_string(u64::MAX), u64::MAX.to_string());
}

#[test]
fn join_texts() {
    assert_eq!(join("Error: ", "boom"), "Error: boom");
}

#[test]
fn parse_i32_accepts_signed_decimals() {
    assert_eq!(parse_i32("42"), Some(42));
    assert_eq!(parse_i32("-7"), Some(-7));
    assert_eq!(parse_i32("+5"), Some(5));
    assert_eq!(parse_i32("007"), Some(7));
    assert_eq!(parse_i32("2147483647"), Some(i32::MAX));
    assert_eq!(parse_i32("-2147483648"), Some(i32::MIN));
}

#[test]
fn parse_i32_rejects_what_std_rejects() {
    for s in ["", "-", "+", "12a", " 1", "1 ", "2147483648", "-2147483649", "99999999999999999999", "1.5"] {
        assert_eq!(parse_i32(s), None, "{s:?}");
        assert_eq!(s.parse::<i32>().ok(), None, "{s:?}");
    }
    for s in ["42", "-7", "+5", "0", "-0"] {
        assert_eq!(parse_i32(s), s.parse::<i32>().ok());
    }
}
