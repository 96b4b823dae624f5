use deepgram_probe::text::{str_contains, u64_to_decimal};

#[test]
fn decimal_of_zero() {
    assert_eq!(u64_to_decimal(0), "0");
}

#[test]
fn decimal_of_single_digit() {
    assert_eq!(u64_to_decimal(7), "7");
}

#[test]
fn decimal_of_multi_digit() {
    assert_eq!(u64_to_decimal(1006), "1006");
}

#[test]
fn decimal_of_round_number_keeps_trailing_zeros() {
    assert_eq!(u64_to_decimal(5000), "5000");
}

#[test]
fn decimal_of_max_u64() {
    assert_eq!(u64_to_decimal(u64::MAX), "18446744073709551615");
}

#[test]
fn contains_finds_inner_run() {
    assert!(str_contains("HTTP error: 401 Unauthorized", "401"));
}

#[test]
fn contains_rejects_absent_needle() {
    assert!(!str_contains("connection refused", "401"));
}

#[test]
fn contains_rejects_scattered_characters() {
    assert!(!str_contains("4x0x1", "401"));
}

#[test]
fn contains_accepts_empty_needle() {
    assert!(str_contains("anything", ""));
    assert!(str_contains("", ""));
}

#[test]
fn contains_rejects_needle_longer_than_haystack() {
    assert!(!str_contains("ab", "abc"));
}

#[test]
fn contains_finds_needle_at_either_edge() {
    assert!(str_contains("403", "403"));
    assert!(str_contains("403 Forbidden", "403"));
    assert!(str_contains("error 403", "403"));
}

#[test]
fn contains_handles_non_ascii_haystack() {
    assert!(str_contains("fehler — 401 — zugriff", "401"));
    assert!(!str_contains("fehler — öffnen", "401"));
}
