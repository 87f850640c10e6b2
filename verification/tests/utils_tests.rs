use keyforge_model::serde_utils::{transport_limit_message, within_transport_limit};
use keyforge_model::utils::is_none;

#[test]
fn test_is_none() {
    let none: Option<i32> = None;
    let some = Some(10);
    assert!(is_none(&none));
    assert!(!is_none(&some));
}

#[test]
fn transport_limit() {
    assert!(within_transport_limit(100_000));
    assert!(!within_transport_limit(100_001));
    assert_eq!(transport_limit_message(), "Vector exceeds limit of 100,000 items");
}
