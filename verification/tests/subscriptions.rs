use open_protocol_device_simulator::subscriptions::Subscriptions;

#[test]
fn test_default_no_subscriptions() {
    let subs = Subscriptions::new();
    assert!(!subs.is_subscribed_to_tightening_result());
    assert!(!subs.is_subscribed_to_pset_selection());
    assert_eq!(subs.active_count(), 0);
    assert!(!subs.has_any_subscription());
}

#[test]
fn test_subscribe_tightening_result() {
    let mut subs = Subscriptions::new();
    subs.subscribe_tightening_result();

    assert!(subs.is_subscribed_to_tightening_result());
    assert_eq!(subs.active_count(), 1);
    assert!(subs.has_any_subscription());
}

#[test]
fn test_unsubscribe_tightening_result() {
    let mut subs = Subscriptions::new();
    subs.subscribe_tightening_result();
    subs.unsubscribe_tightening_result();

    assert!(!subs.is_subscribed_to_tightening_result());
    assert_eq!(subs.active_count(), 0);
}

#[test]
fn test_multiple_subscriptions() {
    let mut subs = Subscriptions::new();
    subs.subscribe_tightening_result();
    subs.subscribe_pset_selection();

    assert!(subs.is_subscribed_to_tightening_result());
    assert!(subs.is_subscribed_to_pset_selection());
    assert_eq!(subs.active_count(), 2);
}

#[test]
fn test_subscribe_idempotent() {
    let mut subs = Subscriptions::new();
    subs.subscribe_tightening_result();
    subs.subscribe_tightening_result();

    assert!(subs.is_subscribed_to_tightening_result());
    assert_eq!(subs.active_count(), 1);
}
