use allibrary::strings::{decimal_string, hex_string, same_text, utf8_bytes, utf8_text};
use allibrary::text::{
    bytes_eq, contains, ends_with, find, format_decimal, index_of, join_fields, lines,
    parse_decimal, split, splitn, starts_with, to_hex, trim,
};

fn b(s: &str) -> Vec<u8> {
    s.as_bytes().to_vec()
}

#[test]
fn hex_dump_is_lower_case() {
    assert_eq!(to_hex(&[0x00, 0xab, 0x7f, 0xff]), b("00ab7fff"));
    assert_eq!(to_hex(&[]), b(""));
    assert_eq!(hex_string(&[0x00, 0xab, 0x7f, 0xff]), "00ab7fff");
    assert_eq!(hex_string(&[]), "");
}

#[test]
fn contains_finds_needle() {
    assert!(contains(b"250-ServiceID=abc", b"250"));
    assert!(!contains(b"550 failed", b"250"));
    assert!(contains(b"abc", b""));
    assert!(contains(b"", b""));
    assert!(!contains(b"", b"a"));
    assert!(!contains(b"ab", b"abc"));
}

#[test]
fn find_gives_the_first_occurrence() {
    assert_eq!(find(b"abcabc", b"bc"), Some(1));
    assert_eq!(find(b"abcabc", b"abc"), Some(0));
    assert_eq!(find(b"abcabc", b"cab"), Some(2));
    assert_eq!(find(b"abcabc", b"x"), None);
    assert_eq!(find(b"abc", b"abcd"), None);
    assert_eq!(find(b"aab", b"ab"), Some(1));
}

#[test]
fn prefixes_and_suffixes() {
    assert!(starts_with(b"CONTENT|x", b"CONTENT|"));
    assert!(!starts_with(b"CONTEN", b"CONTENT|"));
    assert!(starts_with(b"x", b""));
    assert!(ends_with(b"abc.onion", b".onion"));
    assert!(!ends_with(b"onion", b".onion"));
    assert!(bytes_eq(b"ab", b"ab"));
    assert!(!bytes_eq(b"ab", b"abc"));
    assert!(!bytes_eq(b"ab", b"ac"));
    assert!(same_text("ä", "ä"));
    assert!(!same_text("a", "ä"));
}

#[test]
fn index_of_first_byte() {
    assert_eq!(index_of(b"a|b|c", b'|'), 1);
    assert_eq!(index_of(b"abc", b'|'), 3);
    assert_eq!(index_of(b"", b'|'), 0);
}

#[test]
fn splitn_keeps_later_separators_in_the_last_field() {
    assert_eq!(splitn(b"a|b|c|d", b'|', 3), vec![b("a"), b("b"), b("c|d")]);
    assert_eq!(splitn(b"a|b", b'|', 3), vec![b("a"), b("b")]);
    assert_eq!(splitn(b"a|b", b'|', 1), vec![b("a|b")]);
    assert_eq!(splitn(b"a|b", b'|', 0), Vec::<Vec<u8>>::new());
    assert_eq!(splitn(b"", b'|', 2), vec![b("")]);
    assert_eq!(splitn(b"|", b'|', 2), vec![b(""), b("")]);
}

#[test]
fn split_at_every_separator() {
    assert_eq!(split(b"a,b,,c", b','), vec![b("a"), b("b"), b(""), b("c")]);
    assert_eq!(split(b"", b','), vec![b("")]);
    assert_eq!(split(b",", b','), vec![b(""), b("")]);
}

#[test]
fn join_is_the_inverse_of_split() {
    let parts = vec![b("a"), b(""), b("c")];
    assert_eq!(join_fields(&parts, b','), b("a,,c"));
    assert_eq!(split(&join_fields(&parts, b','), b','), parts);
    assert_eq!(join_fields(&vec![], b','), b(""));
    assert_eq!(join_fields(&vec![b("x")], b','), b("x"));
}

#[test]
fn trim_drops_ascii_white_space_at_both_ends() {
    assert_eq!(trim(b"  a b \t\r\n"), b("a b"));
    assert_eq!(trim(b"   "), b(""));
    assert_eq!(trim(b""), b(""));
    assert_eq!(trim(b"x"), b("x"));
    assert_eq!(trim(b"\x0b\x0cx"), b("x"));
}

#[test]
fn lines_end_at_line_feeds() {
    assert_eq!(lines(b"a\r\nb\n\nc"), vec![b("a"), b("b"), b(""), b("c")]);
    assert_eq!(lines(b"a\n"), vec![b("a")]);
    assert_eq!(lines(b""), Vec::<Vec<u8>>::new());
    assert_eq!(lines(b"\n"), vec![b("")]);
    assert_eq!(lines(b"foo\nbar\n\r\nbaz\r"), vec![b("foo"), b("bar"), b(""), b("baz\r")]);
}

#[test]
fn decimal_numbers_are_read_with_their_limit() {
    assert_eq!(parse_decimal(b"0", 65535), Some(0));
    assert_eq!(parse_decimal(b"443", 65535), Some(443));
    assert_eq!(parse_decimal(b"+443", 65535), Some(443));
    assert_eq!(parse_decimal(b"65535", 65535), Some(65535));
    assert_eq!(parse_decimal(b"65536", 65535), None);
    assert_eq!(parse_decimal(b"000000000000000000000000000000000007", 65535), Some(7));
    assert_eq!(parse_decimal(b"99999999999999999999999999", u64::MAX), None);
    assert_eq!(parse_decimal(b"18446744073709551615", u64::MAX), Some(u64::MAX));
    assert_eq!(parse_decimal(b"18446744073709551616", u64::MAX), None);
    assert_eq!(parse_decimal(b"", 65535), None);
    assert_eq!(parse_decimal(b"+", 65535), None);
    assert_eq!(parse_decimal(b"-1", 65535), None);
    assert_eq!(parse_decimal(b"12a", 65535), None);
    assert_eq!(parse_decimal(b" 12", 65535), None);
    assert_eq!(parse_decimal(b"5", 0), None);
    assert_eq!(parse_decimal(b"0", 0), Some(0));
}

#[test]
fn decimal_numbers_are_written_without_leading_zeros() {
    assert_eq!(format_decimal(0), b("0"));
    assert_eq!(format_decimal(9), b("9"));
    assert_eq!(format_decimal(10), b("10"));
    assert_eq!(format_decimal(65535), b("65535"));
    assert_eq!(format_decimal(u64::MAX), b("18446744073709551615"));
    assert_eq!(decimal_string(0), "0");
    assert_eq!(decimal_string(4001), "4001");
    assert_eq!(decimal_string(u64::MAX), "18446744073709551615");
}

#[test]
fn written_numbers_are_read_back() {
    for n in [0u64, 1, 9, 10, 99, 100, 443, 65535, 1 << 40, u64::MAX] {
        assert_eq!(parse_decimal(&format_decimal(n), u64::MAX), Some(n));
    }
}

#[test]
fn text_and_bytes_convert_both_ways() {
    assert_eq!(utf8_text(b"hello"), Some("hello".to_string()));
    assert_eq!(utf8_text("grüße".as_bytes()), Some("grüße".to_string()));
    assert_eq!(utf8_text(&[0xff, 0xfe]), None);
    assert_eq!(utf8_text(&[0xc3]), None);
    assert_eq!(utf8_bytes("grüße"), "grüße".as_bytes().to_vec());
    assert_eq!(utf8_text(&utf8_bytes("日本語")), Some("日本語".to_string()));
}
