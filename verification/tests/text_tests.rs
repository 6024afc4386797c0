use matrix_mcp_server_r2::text::{
    concat2, contains_str, join_strings, parse_u16, split_second, starts_with, u64_to_decimal,
};

#[test]
fn decimal_rendering() {
    assert_eq!(u64_to_decimal(0), "0");
    assert_eq!(u64_to_decimal(7), "7");
    assert_eq!(u64_to_decimal(1234567890), "1234567890");
    assert_eq!(u64_to_decimal(u64::MAX), "18446744073709551615");
}

#[test]
fn u16_reading_matches_std() {
    for s in ["0", "3000", "65535", "65536", "", "+", "+8", "-1", "12a", " 1", "0009", "99999999999"] {
        assert_eq!(parse_u16(s), s.parse::<u16>().ok(), "input {:?}", s);
    }
}

#[test]
fn decimal_reads_back() {
    for n in [0u16, 1, 9, 10, 80, 3000, 65535] {
        assert_eq!(parse_u16(&u64_to_decimal(n as u64)), Some(n));
    }
}

#[test]
fn string_helpers() {
    assert!(starts_with("https://x", "https://"));
    assert!(!starts_with("http", "https://"));
    assert!(contains_str("hello world", "o w"));
    assert!(!contains_str("hello", "world"));
    assert_eq!(concat2("ab", "cd"), "abcd");
    assert_eq!(split_second("@bot:example.com", ':'), Some("example.com".to_string()));
    assert_eq!(split_second("nocolon", ':'), None);
    assert_eq!(split_second("a:b:c", ':'), Some("b".to_string()));
    let list = vec!["a".to_string(), "b".to_string(), "c".to_string()];
    assert_eq!(join_strings(&list, ", "), "a, b, c");
    assert_eq!(join_strings(&vec![], ", "), "");
}
