use hermit_proxy::decimal::{append_decimal, parse_u8};
use hermit_proxy::readiness::{find, ready_token_bytes, scan_log, READY_TOKEN};

#[test]
fn parse_u8_accepts_what_std_accepts() {
    for s in ["0", "9", "255", "+255", "0000012", "128", "+0", "256", "", "+", "-0", "12a", "٣", " 1", "1 ", "99999"] {
        assert_eq!(parse_u8(s), s.parse::<u8>().ok(), "text {:?}", s);
    }
}

#[test]
fn parse_u8_values() {
    assert_eq!(parse_u8("3"), Some(3));
    assert_eq!(parse_u8("+42"), Some(42));
    assert_eq!(parse_u8("256"), None);
    assert_eq!(parse_u8("abc"), None);
}

#[test]
fn append_decimal_writes_every_u8() {
    for n in 0..=255u8 {
        let mut s = String::from("x");
        append_decimal(&mut s, n);
        assert_eq!(s, format!("x{}", n));
    }
}

#[test]
fn find_substrings() {
    assert!(find(b"abc", b""));
    assert!(find(b"abc", b"abc"));
    assert!(find(b"xxabcx", b"abc"));
    assert!(!find(b"ab", b"abc"));
    assert!(!find(b"abxc", b"abc"));
    assert!(!find(b"", b"a"));
}

#[test]
fn token_bytes_and_scan() {
    assert_eq!(ready_token_bytes(), READY_TOKEN.as_bytes());
    assert_eq!(READY_TOKEN, "TCP server is listening.");
    assert!(scan_log(b"a\r\nTCP server is listening.\r\n"));
    assert!(!scan_log(b"TCP server is listening!"));
}
