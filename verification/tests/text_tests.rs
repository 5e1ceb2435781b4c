use panorama_mail::text::is_white_space;
use panorama_mail::text::trim_text;
use panorama_mail::text::{
    chars_of, contains_str, decimal_string, join_strings, parse_u16, prefix_string, str_equal,
};

#[test]
fn decimal_strings() {
    assert_eq!(decimal_string(0), "0");
    assert_eq!(decimal_string(7), "7");
    assert_eq!(decimal_string(10), "10");
    assert_eq!(decimal_string(4294967295), "4294967295");
    assert_eq!(decimal_string(u64::MAX), u64::MAX.to_string());
}

#[test]
fn joining() {
    let parts = vec!["a".to_string(), "bc".to_string(), "".to_string(), "d".to_string()];
    assert_eq!(join_strings(&parts, ","), "a,bc,,d");
    assert_eq!(join_strings(&vec![], ","), "");
    assert_eq!(join_strings(&vec!["x".to_string()], ", "), "x");
}

#[test]
fn parse_u16_agrees_with_std() {
    for s in [
        "", "+", "-", "0", "00", "+0", "-0", "1143", "65535", "65536", "99999", "123456789",
        " 1", "1 ", "1_0", "+65535", "++1", "0x10", "٣", "42a",
    ] {
        assert_eq!(parse_u16(s), s.parse::<u16>().ok(), "input {s:?}");
    }
}

#[test]
fn substrings_and_prefixes() {
    assert!(contains_str("Error: LockBusy on index", "LockBusy"));
    assert!(!contains_str("Error: Lock Busy", "LockBusy"));
    assert!(contains_str("abc", ""));
    assert!(!contains_str("ab", "abc"));
    assert_eq!(prefix_string("héllo", 2), "hé");
    assert_eq!(prefix_string("hi", 300), "hi");
    assert!(str_equal("tools/call", "tools/call"));
    assert!(!str_equal("tools/call", "tools/cal"));
    assert_eq!(chars_of("aé"), vec!['a', 'é']);
}

#[test]
fn trimming_agrees_with_std() {
    for s in ["", "   ", "a", " a ", "\t\r\n x y \n", "\u{3000}z\u{2028}", "\u{200b}q\u{200b}", "ab  cd"] {
        assert_eq!(trim_text(s), s.trim(), "input {s:?}");
    }
}

#[test]
fn white_space_agrees_with_std() {

    for code in 0u32..=0x10FFFF {
        if let Some(c) = char::from_u32(code) {
            assert_eq!(is_white_space(c), c.is_whitespace(), "code point {code:#x}");
        }
    }
}
