//! The identifier codec on concrete values.

use todo_core::ids::{dec_to_u64, u64_to_dec};

#[test]
fn renders_decimal() {
    assert_eq!(u64_to_dec(0), "0");
    assert_eq!(u64_to_dec(7), "7");
    assert_eq!(u64_to_dec(10), "10");
    assert_eq!(u64_to_dec(90_210), "90210");
    assert_eq!(u64_to_dec(u64::MAX), "18446744073709551615");
}

#[test]
fn parses_decimal() {
    assert_eq!(dec_to_u64("0"), Some(0));
    assert_eq!(dec_to_u64("42"), Some(42));
    assert_eq!(dec_to_u64("007"), Some(7));
    assert_eq!(dec_to_u64("18446744073709551615"), Some(u64::MAX));
    assert_eq!(dec_to_u64("18446744073709551616"), None);
    assert_eq!(dec_to_u64("99999999999999999999999"), None);
    assert_eq!(dec_to_u64(""), None);
    assert_eq!(dec_to_u64("-1"), None);
    assert_eq!(dec_to_u64("+1"), None);
    assert_eq!(dec_to_u64("1 "), None);
    assert_eq!(dec_to_u64("12a"), None);
}

#[test]
fn round_trips() {
    for n in [0u64, 1, 9, 10, 99, 1_000_000, u64::MAX - 1, u64::MAX] {
        assert_eq!(dec_to_u64(&u64_to_dec(n)), Some(n));
    }
}
