use odns::keys::{parse_duration, DurationError};
use odns::text::{before, find, is_whitespace, parse_u64, str_eq, trim};

#[test]
fn trimming() {
    assert_eq!(trim("  abc  "), "abc");
    assert_eq!(trim("abc"), "abc");
    assert_eq!(trim(""), "");
    assert_eq!(trim(" \t\r\n"), "");
    assert_eq!(trim("\u{a0}a b\u{3000}"), "a b");
    assert_eq!(trim(" é "), "é");
    for text in ["", " ", "x", " x", "x ", "  a  b  ", "\u{2003}y\u{2028}", "\u{200b}z"] {
        assert_eq!(trim(text), text.trim(), "{:?}", text);
    }
}

#[test]
fn white_space_is_unicode_white_space() {
    for code in 0u32..0x3100 {
        if let Some(c) = char::from_u32(code) {
            assert_eq!(is_whitespace(c), c.is_whitespace(), "U+{:04X}", code);
        }
    }
    assert!(!is_whitespace('\u{feff}'));
}

#[test]
fn cutting_and_finding() {
    assert_eq!(before("a;b;c", ';'), "a");
    assert_eq!(before("abc", ';'), "abc");
    assert_eq!(before(";abc", ';'), "");
    assert_eq!(before("", ';'), "");
    assert_eq!(find("a.b.c", '.', 0), 1);
    assert_eq!(find("a.b.c", '.', 1), 1);
    assert_eq!(find("a.b.c", '.', 2), 3);
    assert_eq!(find("a.b.c", '.', 4), 5);
    assert_eq!(find("a.b.c", '.', 9), 5);
    assert_eq!(find("äöü.x", '.', 0), 3);
}

#[test]
fn comparing() {
    assert!(str_eq("", ""));
    assert!(str_eq("abc", "abc"));
    assert!(!str_eq("abc", "abd"));
    assert!(!str_eq("abc", "ab"));
    assert!(!str_eq("ab", "abc"));
}

#[test]
fn numbers() {
    assert_eq!(parse_u64("0"), Some(0));
    assert_eq!(parse_u64("42"), Some(42));
    assert_eq!(parse_u64("+42"), Some(42));
    assert_eq!(parse_u64("007"), Some(7));
    assert_eq!(parse_u64("18446744073709551615"), Some(u64::MAX));
    assert_eq!(parse_u64("18446744073709551616"), None);
    assert_eq!(parse_u64("99999999999999999999999"), None);
    assert_eq!(parse_u64(""), None);
    assert_eq!(parse_u64("+"), None);
    assert_eq!(parse_u64("-1"), None);
    assert_eq!(parse_u64("1 "), None);
    assert_eq!(parse_u64("1a"), None);
    assert_eq!(parse_u64("++1"), None);
    assert_eq!(parse_u64("١٢"), None);
    for text in ["0", "1", "+0", "000", "12345678901234567890", "18446744073709551615", "x", ""] {
        assert_eq!(parse_u64(text), text.parse::<u64>().ok(), "{:?}", text);
    }
}

#[test]
fn durations() {
    assert_eq!(parse_duration("24h"), Ok(86_400));
    assert_eq!(parse_duration("6h"), Ok(21_600));
    assert_eq!(parse_duration("90m"), Ok(5_400));
    assert_eq!(parse_duration("45s"), Ok(45));
    assert_eq!(parse_duration("45"), Ok(45));
    assert_eq!(parse_duration("  2h \n"), Ok(7_200));
    assert_eq!(parse_duration("0"), Ok(0));
    assert_eq!(parse_duration("0h"), Ok(0));
    assert_eq!(parse_duration("+3m"), Ok(180));
}

#[test]
fn bad_durations() {
    assert_eq!(parse_duration("h"), Err(DurationError::InvalidHours));
    assert_eq!(parse_duration("xh"), Err(DurationError::InvalidHours));
    assert_eq!(parse_duration("1.5h"), Err(DurationError::InvalidHours));
    assert_eq!(parse_duration("m"), Err(DurationError::InvalidMinutes));
    assert_eq!(parse_duration("5 m"), Err(DurationError::InvalidMinutes));
    assert_eq!(parse_duration("s"), Err(DurationError::InvalidSeconds));
    assert_eq!(parse_duration("5ms"), Err(DurationError::InvalidSeconds));
    assert_eq!(parse_duration(""), Err(DurationError::InvalidDuration));
    assert_eq!(parse_duration("   "), Err(DurationError::InvalidDuration));
    assert_eq!(parse_duration("abc"), Err(DurationError::InvalidDuration));
    assert_eq!(parse_duration("-5"), Err(DurationError::InvalidDuration));
    assert_eq!(parse_duration("5d"), Err(DurationError::InvalidDuration));
    assert_eq!(parse_duration("5H"), Err(DurationError::InvalidDuration));
}

#[test]
fn durations_that_do_not_fit() {
    assert_eq!(parse_duration("18446744073709551615"), Ok(u64::MAX));
    assert_eq!(parse_duration("18446744073709551615s"), Ok(u64::MAX));
    assert_eq!(parse_duration("18446744073709551616"), Err(DurationError::InvalidDuration));
    assert_eq!(parse_duration("5124095576030431h"), Ok(5124095576030431 * 3600));
    assert_eq!(parse_duration("5124095576030432h"), Err(DurationError::InvalidHours));
    assert_eq!(parse_duration("307445734561825860m"), Ok(307445734561825860 * 60));
    assert_eq!(parse_duration("307445734561825861m"), Err(DurationError::InvalidMinutes));
}
