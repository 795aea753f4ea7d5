use launcher::text::{
    append_bytes, append_decimal, begins_with, digits_to_u64, find, find_from, includes, occurs_at,
    scan, ByteClass,
};

#[test]
fn find_returns_first_occurrence() {
    assert_eq!(find(b"abcabc", b"bc"), Some(1));
    assert_eq!(find(b"abcabc", b"abc"), Some(0));
    assert_eq!(find(b"abcabc", b"cab"), Some(2));
    assert_eq!(find(b"abcabc", b"x"), None);
}

#[test]
fn find_handles_empty_and_long_needles() {
    assert_eq!(find(b"abc", b""), Some(0));
    assert_eq!(find(b"", b""), Some(0));
    assert_eq!(find(b"", b"a"), None);
    assert_eq!(find(b"ab", b"abc"), None);
}

#[test]
fn find_from_skips_earlier_occurrences() {
    assert_eq!(find_from(b"a:b:c", b":", 0), Some(1));
    assert_eq!(find_from(b"a:b:c", b":", 1), Some(1));
    assert_eq!(find_from(b"a:b:c", b":", 2), Some(3));
    assert_eq!(find_from(b"a:b:c", b":", 4), None);
    assert_eq!(find_from(b"a:b:c", b":", 5), None);
    assert_eq!(find_from(b"a:b:c", b":", 99), None);
    assert_eq!(find_from(b"abc", b"", 3), Some(3));
}

#[test]
fn occurs_at_checks_bounds() {
    assert!(occurs_at(b"hello", b"llo", 2));
    assert!(!occurs_at(b"hello", b"llo", 3));
    assert!(!occurs_at(b"hello", b"lo", 4));
    assert!(occurs_at(b"hello", b"", 5));
    assert!(!occurs_at(b"hello", b"", 6));
}

#[test]
fn includes_and_begins_with() {
    assert!(includes(b"say user_exit now", b"user_exit"));
    assert!(!includes(b"say user exit now", b"user_exit"));
    assert!(begins_with(b"cpython-3.11", b"cpython-"));
    assert!(!begins_with(b"xcpython-3.11", b"cpython-"));
    assert!(begins_with(b"abc", b""));
}

#[test]
fn scan_stops_at_first_byte_outside_class() {
    assert_eq!(scan(b"  \t\n\r\x0b\x0cx ", ByteClass::Space, 0), 7);
    assert_eq!(scan(b"123.45", ByteClass::Digit, 0), 3);
    assert_eq!(scan(b"123.45,", ByteClass::Numeral, 0), 6);
    assert_eq!(scan(b"123", ByteClass::Digit, 3), 3);
    assert_eq!(scan(b"abc", ByteClass::Digit, 1), 1);
    assert_eq!(scan(b"1/2:3", ByteClass::Digit, 1), 1);
    assert_eq!(scan(b"\x08\x0e", ByteClass::Space, 0), 0);
    assert_eq!(scan(b"12", ByteClass::Digit, 2), 2);
    assert_eq!(scan(b"12", ByteClass::Digit, 7), 7);
}

#[test]
fn byte_classes_admit_their_bytes() {
    assert!(ByteClass::Digit.admits(b'0'));
    assert!(ByteClass::Digit.admits(b'9'));
    assert!(!ByteClass::Digit.admits(b'/'));
    assert!(!ByteClass::Digit.admits(b':'));
    assert!(ByteClass::Numeral.admits(b'.'));
    assert!(!ByteClass::Numeral.admits(b'-'));
    assert!(ByteClass::Space.admits(b' '));
    assert!(!ByteClass::Space.admits(0xa0));
}

#[test]
fn digits_to_u64_reads_decimal() {
    assert_eq!(digits_to_u64(b""), Some(0));
    assert_eq!(digits_to_u64(b"0"), Some(0));
    assert_eq!(digits_to_u64(b"007"), Some(7));
    assert_eq!(digits_to_u64(b"1700000000"), Some(1_700_000_000));
    assert_eq!(digits_to_u64(b"18446744073709551615"), Some(u64::MAX));
}

#[test]
fn digits_to_u64_saturates() {
    assert_eq!(digits_to_u64(b"18446744073709551616"), Some(u64::MAX));
    assert_eq!(digits_to_u64(b"99999999999999999999999999"), Some(u64::MAX));
    assert_eq!(digits_to_u64(b"184467440737095516150"), Some(u64::MAX));
}

#[test]
fn digits_to_u64_refuses_other_bytes() {
    assert_eq!(digits_to_u64(b"12a"), None);
    assert_eq!(digits_to_u64(b"-1"), None);
    assert_eq!(digits_to_u64(b"1.5"), None);
    assert_eq!(digits_to_u64(b" 1"), None);
    assert_eq!(digits_to_u64(b"/"), None);
    assert_eq!(digits_to_u64(b":"), None);
    assert_eq!(digits_to_u64(b"99999999999999999999999999x"), None);
}

#[test]
fn append_decimal_writes_digits() {
    let mut out = b"port ".to_vec();
    append_decimal(&mut out, 8765);
    assert_eq!(out, b"port 8765".to_vec());
    let mut zero = Vec::new();
    append_decimal(&mut zero, 0);
    assert_eq!(zero, b"0".to_vec());
    let mut max = Vec::new();
    append_decimal(&mut max, u64::MAX);
    assert_eq!(max, b"18446744073709551615".to_vec());
}

#[test]
fn decimal_round_trip_on_values() {
    for n in [0u64, 9, 10, 99, 100, 65535, 1_700_000_000, u64::MAX] {
        let mut out = Vec::new();
        append_decimal(&mut out, n);
        assert_eq!(digits_to_u64(&out), Some(n));
    }
}

#[test]
fn append_bytes_appends() {
    let mut out = b"ab".to_vec();
    append_bytes(&mut out, b"cd");
    append_bytes(&mut out, b"");
    assert_eq!(out, b"abcd".to_vec());
}
