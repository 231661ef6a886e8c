use feed_crafter::text::{char_is_space, is_blank, keep_unless_blank, parse_decimal};

#[test]
fn test_is_blank_agrees_with_trim() {
    for text in ["", " ", "\t\r\n", "\u{a0}", "\u{3000}\u{2028}", "a", " a ", "\u{200b}", "_", "0"]
    {
        assert_eq!(is_blank(text), text.trim().is_empty(), "{:?}", text);
    }
}

#[test]
fn test_char_is_space_agrees_with_std() {
    let mut code: u32 = 0;
    while code <= 0x3100 {
        if let Some(c) = char::from_u32(code) {
            assert_eq!(char_is_space(c), c.is_whitespace(), "{:#x}", code);
        }
        code += 1;
    }
    assert!(!char_is_space('\u{10ffff}'));
}

#[test]
fn test_keep_unless_blank() {
    assert_eq!(keep_unless_blank(None), None);
    assert_eq!(keep_unless_blank(Some("".to_string())), None);
    assert_eq!(keep_unless_blank(Some(" \t".to_string())), None);
    assert_eq!(keep_unless_blank(Some(" x ".to_string())), Some(" x ".to_string()));
}

#[test]
fn test_parse_decimal_exact_values() {
    assert_eq!(parse_decimal("0"), Some(0));
    assert_eq!(parse_decimal("42"), Some(42));
    assert_eq!(parse_decimal("+42"), Some(42));
    assert_eq!(parse_decimal("0003600"), Some(3600));
    assert_eq!(parse_decimal("18446744073709551615"), Some(u64::MAX));
    assert_eq!(parse_decimal("18446744073709551616"), None);
    assert_eq!(parse_decimal("99999999999999999999999"), None);
    assert_eq!(parse_decimal(""), None);
    assert_eq!(parse_decimal("+"), None);
    assert_eq!(parse_decimal("-"), None);
    assert_eq!(parse_decimal("-1"), None);
    assert_eq!(parse_decimal("++1"), None);
    assert_eq!(parse_decimal("1+"), None);
    assert_eq!(parse_decimal(" 1"), None);
    assert_eq!(parse_decimal("1 "), None);
    assert_eq!(parse_decimal("1_000"), None);
    assert_eq!(parse_decimal("12a"), None);
    assert_eq!(parse_decimal("١٢"), None);
}

#[test]
fn test_parse_decimal_agrees_with_std() {
    for text in [
        "", "+", "-", "0", "+0", "-0", "7", "007", "+007", "3600", "18446744073709551615",
        "18446744073709551616", "184467440737095516150", "1e3", "0x10", " 5", "5 ", "+-5", "５",
        "99999999999999999999x",
    ] {
        assert_eq!(parse_decimal(text), text.parse::<u64>().ok(), "{:?}", text);
    }
}
