use rbatis::text::str_eq;
use rbatis::text::str_starts_with;
use rbatis::text::u64_to_dec;

#[test]
fn decimal_rendering() {
    assert_eq!(u64_to_dec(0), "0");
    assert_eq!(u64_to_dec(7), "7");
    assert_eq!(u64_to_dec(10), "10");
    assert_eq!(u64_to_dec(4567), "4567");
    assert_eq!(u64_to_dec(u64::MAX), "18446744073709551615");
}

#[test]
fn prefix_matching() {
    assert!(str_starts_with("alloc::vec::Vec<i64>", "alloc::vec::Vec<"));
    assert!(str_starts_with("abc", ""));
    assert!(str_starts_with("abc", "abc"));
    assert!(!str_starts_with("ab", "abc"));
    assert!(!str_starts_with("abc", "abd"));
}

#[test]
fn string_equality() {
    assert!(str_eq("", ""));
    assert!(str_eq("savepoint", "savepoint"));
    assert!(!str_eq("savepoint", "savepoints"));
    assert!(!str_eq("a", "b"));
}
