use open_protocol_device_simulator::batch_manager::BatchStatus;
use open_protocol_device_simulator::tightening_tracker::TighteningTracker;

#[test]
fn test_default_is_single_mode() {
    let tracker = TighteningTracker::new();
    assert!(!tracker.is_batch_mode());
    assert_eq!(tracker.batch_size(), 0);
    assert_eq!(tracker.counter(), 0);
    assert_eq!(tracker.remaining_work(), None);
    assert!(!tracker.should_wait_for_config());
}

#[test]
fn test_single_mode_tightening() {
    let mut tracker = TighteningTracker::new();

    let info1 = tracker.add_tightening(true);
    assert_eq!(info1.counter, 0);
    assert_eq!(info1.batch_status, BatchStatus::NotUsed);
    assert_eq!(info1.tightening_id, 1);

    let info2 = tracker.add_tightening(false);
    assert_eq!(info2.counter, 0);
    assert_eq!(info2.batch_status, BatchStatus::NotUsed);
    assert_eq!(info2.tightening_id, 2);

    assert_eq!(tracker.counter(), 0);
    assert_eq!(tracker.batch_size(), 0);
}

#[test]
fn test_enable_batch_mode() {
    let mut tracker = TighteningTracker::new();
    tracker.enable_batch(4);

    assert!(tracker.is_batch_mode());
    assert_eq!(tracker.batch_size(), 4);
    assert_eq!(tracker.counter(), 0);
    assert_eq!(tracker.remaining_work(), Some(4));
}

#[test]
fn test_batch_mode_tightening() {
    let mut tracker = TighteningTracker::new();
    tracker.enable_batch(3);

    let info1 = tracker.add_tightening(true);
    assert_eq!(info1.counter, 1);
    assert_eq!(info1.tightening_id, 1);
    assert_eq!(info1.batch_status, BatchStatus::NotFinished);
    assert_eq!(tracker.remaining_work(), Some(2));

    let info2 = tracker.add_tightening(true);
    assert_eq!(info2.counter, 2);
    assert_eq!(info2.tightening_id, 2);
    assert_eq!(tracker.remaining_work(), Some(1));

    let info3 = tracker.add_tightening(true);
    assert_eq!(info3.counter, 3);
    assert_eq!(info3.tightening_id, 3);
    assert_eq!(info3.batch_status, BatchStatus::CompletedOk);
    assert_eq!(tracker.remaining_work(), Some(0));
    assert!(tracker.is_complete());
    assert!(tracker.should_wait_for_config());
}

#[test]
fn test_batch_mode_with_nok() {
    let mut tracker = TighteningTracker::new();
    tracker.enable_batch(2);

    tracker.add_tightening(true);
    tracker.add_tightening(false);

    assert_eq!(tracker.counter(), 1);
    assert_eq!(tracker.remaining_work(), Some(1));
    assert!(!tracker.is_complete());
    assert!(!tracker.should_wait_for_config());
}

#[test]
fn test_switch_from_single_to_batch() {
    let mut tracker = TighteningTracker::new();

    tracker.add_tightening(true);
    tracker.add_tightening(true);
    assert_eq!(tracker.tightening_sequence(), 2);

    tracker.enable_batch(3);

    let info = tracker.add_tightening(true);
    assert_eq!(info.tightening_id, 3);
    assert_eq!(info.counter, 1);
}

#[test]
fn test_enable_batch_while_in_batch_resets() {
    let mut tracker = TighteningTracker::new();
    tracker.enable_batch(4);

    tracker.add_tightening(true);
    tracker.add_tightening(true);
    assert_eq!(tracker.counter(), 2);

    tracker.enable_batch(6);
    assert_eq!(tracker.counter(), 0);
    assert_eq!(tracker.batch_size(), 6);
}

#[test]
fn test_single_mode_never_waits() {
    let mut tracker = TighteningTracker::new();

    for _ in 0..10 {
        tracker.add_tightening(true);
    }

    assert!(!tracker.should_wait_for_config());
    assert_eq!(tracker.remaining_work(), None);
}

#[test]
fn test_batch_completion_signals_wait() {
    let mut tracker = TighteningTracker::new();
    tracker.enable_batch(2);

    tracker.add_tightening(true);
    assert!(!tracker.should_wait_for_config());

    tracker.add_tightening(true);
    assert!(tracker.should_wait_for_config());
}
