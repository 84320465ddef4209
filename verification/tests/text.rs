use open_media_tracker::text::{decimal_string, parse_nonzero_u8, str_eq, str_lt};

#[test]
fn parse_accepts_numbers_from_one_to_255() {
    assert_eq!(parse_nonzero_u8("1"), Some(1));
    assert_eq!(parse_nonzero_u8("42"), Some(42));
    assert_eq!(parse_nonzero_u8("255"), Some(255));
    assert_eq!(parse_nonzero_u8("+5"), Some(5));
    assert_eq!(parse_nonzero_u8("007"), Some(7));
}

#[test]
fn parse_refuses_what_is_not_such_a_number() {
    assert_eq!(parse_nonzero_u8(""), None);
    assert_eq!(parse_nonzero_u8("0"), None);
    assert_eq!(parse_nonzero_u8("000"), None);
    assert_eq!(parse_nonzero_u8("256"), None);
    assert_eq!(parse_nonzero_u8("99999999999"), None);
    assert_eq!(parse_nonzero_u8("+"), None);
    assert_eq!(parse_nonzero_u8("-5"), None);
    assert_eq!(parse_nonzero_u8(" 5"), None);
    assert_eq!(parse_nonzero_u8("5x"), None);
    assert_eq!(parse_nonzero_u8("1000x"), None);
}

#[test]
fn parse_agrees_with_std() {
    for text in ["", "0", "1", "+1", "-1", "12", "255", "256", "+255", "a", "1a", "0255", "++1"] {
        let expected = text.parse::<std::num::NonZeroU8>().ok().map(|n| n.get());
        assert_eq!(parse_nonzero_u8(text), expected, "{text:?}");
    }
}

#[test]
fn decimal_writes_numbers() {
    assert_eq!(decimal_string(0), "0");
    assert_eq!(decimal_string(7), "7");
    assert_eq!(decimal_string(1234), "1234");
    assert_eq!(decimal_string(u64::MAX), u64::MAX.to_string());
}

#[test]
fn text_order_and_equality() {
    assert!(str_lt("abc", "abd"));
    assert!(str_lt("ab", "abc"));
    assert!(!str_lt("abc", "abc"));
    assert!(!str_lt("b", "abc"));
    assert!(str_lt("Z", "a"));
    assert!(str_eq("same", "same"));
    assert!(!str_eq("same", "Same"));
}
