use guessing_game::text::{decimal_text, is_space_char, parse_decimal, trim};

#[test]
fn trim_drops_surrounding_whitespace() {
    assert_eq!(trim("  42\n"), "42");
    assert_eq!(trim("\t\r\n"), "");
    assert_eq!(trim(""), "");
    assert_eq!(trim("a b"), "a b");
    assert_eq!(trim("\u{a0}7\u{3000}"), "7");
    assert_eq!(trim(" x y \u{2028}"), "x y");
}

#[test]
fn space_test_matches_std() {
    for code in 0u32..0x3100 {
        if let Some(c) = char::from_u32(code) {
            assert_eq!(is_space_char(c), c.is_whitespace(), "char {:x}", code);
        }
    }
}

#[test]
fn parse_reads_unsigned_decimal() {
    assert_eq!(parse_decimal("42"), Some(42));
    assert_eq!(parse_decimal("007"), Some(7));
    assert_eq!(parse_decimal("+5"), Some(5));
    assert_eq!(parse_decimal("0"), Some(0));
    assert_eq!(parse_decimal("4294967295"), Some(u32::MAX));
}

#[test]
fn parse_rejects_malformed_text() {
    assert_eq!(parse_decimal(""), None);
    assert_eq!(parse_decimal("+"), None);
    assert_eq!(parse_decimal("-"), None);
    assert_eq!(parse_decimal("-5"), None);
    assert_eq!(parse_decimal("abc"), None);
    assert_eq!(parse_decimal("4x"), None);
    assert_eq!(parse_decimal(" 4"), None);
    assert_eq!(parse_decimal("4294967296"), None);
    assert_eq!(parse_decimal("99999999999999999999x"), None);
}

#[test]
fn parse_agrees_with_std() {
    let samples = [
        "", "+", "-", "-0", "+0", "12", "+12", "++1", "1_000", "4294967295", "4294967296",
        "00000000000000000000001", "٣", "12a", "a12",
    ];
    for s in samples.iter() {
        assert_eq!(parse_decimal(s), s.parse::<u32>().ok(), "text {:?}", s);
    }
}

#[test]
fn decimal_text_writes_digits() {
    assert_eq!(decimal_text(0), "0");
    assert_eq!(decimal_text(7), "7");
    assert_eq!(decimal_text(10), "10");
    assert_eq!(decimal_text(1234567890), "1234567890");
    assert_eq!(decimal_text(u64::MAX), "18446744073709551615");
}

#[test]
fn decimal_text_reads_back() {
    for n in [0u32, 1, 9, 10, 42, 100, 65535, 4294967295] {
        let t = decimal_text(n as u64);
        assert_eq!(parse_decimal(trim(&t)), Some(n));
    }
}
