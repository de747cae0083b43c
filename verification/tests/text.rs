use ipscan::text::{i64_decimal, is_white_space_char, str_equal, strip_prefix, trim, u64_decimal};

#[test]
fn trim_removes_unicode_whitespace_at_both_ends() {
    assert_eq!(trim("  a b \n"), "a b");
    assert_eq!(trim("\u{3000}\u{a0}x\u{2028}"), "x");
    assert_eq!(trim(" \t "), "");
    assert_eq!(trim(""), "");
    assert_eq!(trim("\u{200b}x"), "\u{200b}x");
}

#[test]
fn trim_agrees_with_std() {
    for text in ["\u{85}abc\u{1680}", "\u{feff}abc", "\r\n\u{b}\u{c}q\u{205f}", "\u{e9} \u{e9}"] {
        assert_eq!(trim(text), text.trim());
    }
}

#[test]
fn whitespace_agrees_with_std() {
    for code in 0u32..=0x10ffff {
        if let Some(c) = char::from_u32(code) {
            assert_eq!(is_white_space_char(c), c.is_whitespace(), "{:x}", code);
        }
    }
}

#[test]
fn equality_and_prefixes() {
    assert!(str_equal("-o", "-o"));
    assert!(!str_equal("-o", "-O"));
    assert!(!str_equal("-o", "-oo"));
    assert_eq!(strip_prefix("--output=yaml", "--output="), Some("yaml"));
    assert_eq!(strip_prefix("--output=", "--output="), Some(""));
    assert_eq!(strip_prefix("--outpu", "--output="), None);
    assert_eq!(strip_prefix("\u{e9}t\u{e9}", "\u{e9}"), Some("t\u{e9}"));
}

#[test]
fn decimal_text() {
    assert_eq!(u64_decimal(0), "0");
    assert_eq!(u64_decimal(10), "10");
    assert_eq!(u64_decimal(u64::MAX), "18446744073709551615");
    assert_eq!(i64_decimal(-7), "-7");
    assert_eq!(i64_decimal(i64::MIN), "-9223372036854775808");
    assert_eq!(i64_decimal(i64::MAX), "9223372036854775807");
}

#[test]
fn decimal_text_reads_back() {
    for n in [0u64, 9, 10, 99, 100, 12345, u64::MAX / 3, u64::MAX] {
        assert_eq!(u64_decimal(n).parse::<u64>().unwrap(), n);
    }
}
