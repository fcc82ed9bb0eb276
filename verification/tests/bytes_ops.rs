use pqc_proxy::bytes::{
    bytes_eq, contains_bytes, find_bytes, find_first, parse_u8_dec, pct_decode, pct_encode,
    replace_all, starts_with, str_eq, sub_vec, u64_dec,
};

#[test]
fn contains_finds_needle() {
    assert!(contains_bytes(b"hello world", b"lo wo"));
    assert!(contains_bytes(b"hello", b""));
    assert!(!contains_bytes(b"hello", b"world"));
    assert!(!contains_bytes(b"ab", b"abc"));
}

#[test]
fn find_returns_leftmost() {
    assert_eq!(find_bytes(b"abcabc", b"bc"), Some(1));
    assert_eq!(find_bytes(b"abcabc", b"zz"), None);
    assert_eq!(find_first(b"q=a&q=b", b"q="), Some(0));
}

#[test]
fn equality_and_prefix() {
    assert!(bytes_eq(b"abc", b"abc"));
    assert!(!bytes_eq(b"abc", b"abd"));
    assert!(!bytes_eq(b"abc", b"ab"));
    assert!(starts_with(b"https://x", b"https://"));
    assert!(!starts_with(b"http://x", b"https://"));
    assert!(str_eq("connection", "connection"));
    assert!(!str_eq("connection", "connexion"));
}

#[test]
fn replace_rewrites_all_occurrences() {
    let r = replace_all(b"a-b-c", b"-", b"+");
    assert_eq!(r, b"a+b+c".to_vec());
    let r = replace_all(b"href=\"/x\" href=\"/y\"", b"href=\"/", b"href=\"https://o/");
    assert_eq!(r, b"href=\"https://o/x\" href=\"https://o/y\"".to_vec());
    let r = replace_all(b"aaaa", b"aa", b"b");
    assert_eq!(r, b"bb".to_vec());
}

#[test]
fn decimal_formatting_and_parsing() {
    assert_eq!(u64_dec(0), b"0".to_vec());
    assert_eq!(u64_dec(1234), b"1234".to_vec());
    assert_eq!(u64_dec(18446744073709551615), b"18446744073709551615".to_vec());
    assert_eq!(parse_u8_dec(b"0"), Some(0));
    assert_eq!(parse_u8_dec(b"007"), Some(7));
    assert_eq!(parse_u8_dec(b"255"), Some(255));
    assert_eq!(parse_u8_dec(b"256"), None);
    assert_eq!(parse_u8_dec(b""), None);
    assert_eq!(parse_u8_dec(b"12a"), None);
    assert_eq!(parse_u8_dec(b"-1"), None);
}

#[test]
fn percent_coding_round_trip() {
    assert_eq!(pct_encode(b"hello world"), b"hello%20world".to_vec());
    assert_eq!(pct_encode(b"a.b-c_d~e"), b"a.b-c_d~e".to_vec());
    assert_eq!(pct_decode(b"hello%20world"), b"hello world".to_vec());
    assert_eq!(pct_decode(b"%48i"), b"Hi".to_vec());
    assert_eq!(pct_decode(b"%zz"), b"%zz".to_vec());
    assert_eq!(pct_decode(b"100%"), b"100%".to_vec());
    let data = b"q=\xc3\xa9t\xc3\xa9 2024!".to_vec();
    assert_eq!(pct_decode(&pct_encode(&data)), data);
}

#[test]
fn sub_vec_copies_range() {
    assert_eq!(sub_vec(b"abcdef", 2, 5), b"cde".to_vec());
    assert_eq!(sub_vec(b"abc", 0, 0), Vec::<u8>::new());
}
