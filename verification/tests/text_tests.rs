use hy_tuner::text::{contains_text, format_u32, parse_u16, parse_u32, trim_text, IntParseError};

#[test]
fn trim_removes_surrounding_white_space() {
    assert_eq!(trim_text("  hello world \t\n"), "hello world");
    assert_eq!(trim_text("\u{3000}x\u{a0}"), "x");
    assert_eq!(trim_text("   "), "");
    assert_eq!(trim_text(""), "");
    assert_eq!(trim_text("a b"), "a b");
}

#[test]
fn trim_agrees_with_std() {
    let samples = [" a ", "\u{2028}b\u{85}", "\u{200b}c", "\r\n42\r\n", "\u{1680}\u{2000}\u{200a}z"];
    for s in samples {
        assert_eq!(trim_text(s), s.trim());
    }
}

#[test]
fn parse_u32_accepts_digits_and_plus() {
    assert_eq!(parse_u32("0"), Ok(0));
    assert_eq!(parse_u32("+42"), Ok(42));
    assert_eq!(parse_u32("4294967295"), Ok(u32::MAX));
    assert_eq!(parse_u32("007"), Ok(7));
}

#[test]
fn parse_u32_errors() {
    assert_eq!(parse_u32(""), Err(IntParseError::Empty));
    assert_eq!(parse_u32("+"), Err(IntParseError::InvalidDigit));
    assert_eq!(parse_u32("-1"), Err(IntParseError::InvalidDigit));
    assert_eq!(parse_u32("12a"), Err(IntParseError::InvalidDigit));
    assert_eq!(parse_u32("4294967296"), Err(IntParseError::PosOverflow));
    assert_eq!(parse_u32("99999999999x"), Err(IntParseError::PosOverflow));
    assert_eq!(parse_u32("1 2"), Err(IntParseError::InvalidDigit));
}

#[test]
fn parse_agrees_with_std() {
    let samples = ["", "+", "-", "0", "65535", "65536", "+7", "-7", "1e3", "٣", "4294967295", "4294967296"];
    for s in samples {
        assert_eq!(parse_u32(s).ok(), s.parse::<u32>().ok(), "u32 {s:?}");
        assert_eq!(parse_u16(s).ok(), s.parse::<u16>().ok(), "u16 {s:?}");
    }
}

#[test]
fn parse_u16_bounds() {
    assert_eq!(parse_u16("65535"), Ok(65535));
    assert_eq!(parse_u16("65536"), Err(IntParseError::PosOverflow));
}

#[test]
fn format_writes_decimal() {
    assert_eq!(format_u32(0), "0");
    assert_eq!(format_u32(7), "7");
    assert_eq!(format_u32(1080), "1080");
    assert_eq!(format_u32(u32::MAX), "4294967295");
}

#[test]
fn format_then_parse_round_trip() {
    for n in [0u32, 1, 9, 10, 99, 100, 65535, 123456789, u32::MAX] {
        assert_eq!(parse_u32(&format_u32(n)), Ok(n));
    }
}

#[test]
fn contains_finds_substrings() {
    assert!(contains_text("下行速度: 10", "速度"));
    assert!(contains_text("abc", ""));
    assert!(contains_text("abc", "abc"));
    assert!(!contains_text("ab", "abc"));
    assert!(!contains_text("abc", "ac"));
    assert!(contains_text("xxerror", "error"));
}
