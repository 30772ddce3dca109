use updater_core::text::{str_has_prefix, u16_decimal};

#[test]
fn prefix_test_agrees_with_std() {
    assert!(str_has_prefix("app-v1.2.3", "app-v"));
    assert!(str_has_prefix("abc", ""));
    assert!(str_has_prefix("abc", "abc"));
    assert!(!str_has_prefix("abc", "abcd"));
    assert!(!str_has_prefix("abc", "b"));
    assert!(!str_has_prefix("", "a"));
}

#[test]
fn decimal_rendering_is_exact() {
    assert_eq!(u16_decimal(0), "0");
    assert_eq!(u16_decimal(7), "7");
    assert_eq!(u16_decimal(10), "10");
    assert_eq!(u16_decimal(404), "404");
    assert_eq!(u16_decimal(65535), "65535");
}
