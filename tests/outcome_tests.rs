use sron::outcome::{settle, Elapsed};

#[test]
fn new_carries_its_latency() {
    let e = Elapsed::new(1_500);
    assert!(!e.is_timeout());
    assert_eq!(e.unwrap(), 1_500);
    assert_eq!(e.into_inner(), Some(1_500));
    assert_eq!(Elapsed::new(0).unwrap(), 0);
}

#[test]
fn timeout_carries_no_latency() {
    assert!(Elapsed::Timeout.is_timeout());
    assert_eq!(Elapsed::Timeout.into_inner(), None);
}

#[test]
fn settle_types_the_race() {
    assert_eq!(settle(true, 42), Elapsed::Success(42));
    assert_eq!(settle(false, 42), Elapsed::Timeout);
}
