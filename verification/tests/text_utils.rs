use portfolio::text::has_char;
use portfolio::text::str_eq;
use portfolio::text::str_is_blank;
use portfolio::text::usize_to_dec;

#[test]
fn decimal_rendering_matches_expected_digits() {
    assert_eq!(usize_to_dec(0), "0");
    assert_eq!(usize_to_dec(7), "7");
    assert_eq!(usize_to_dec(10), "10");
    assert_eq!(usize_to_dec(123), "123");
    assert_eq!(usize_to_dec(90210), "90210");
}

#[test]
fn string_equality_is_by_characters() {
    assert!(str_eq("archived", "archived"));
    assert!(!str_eq("read", "ready"));
    assert!(!str_eq("read", "new"));
    assert!(str_eq("", ""));
}

#[test]
fn character_search_finds_the_at_sign() {
    assert!(has_char("ada@example.com", '@'));
    assert!(!has_char("not-an-email", '@'));
    assert!(!has_char("", '@'));
}

#[test]
fn blank_test_matches_trimming() {
    assert!(str_is_blank(""));
    assert!(str_is_blank(" \t\r\n "));
    assert!(!str_is_blank(" a "));
    assert!(str_is_blank("\u{00A0}\u{2003}"));
}
