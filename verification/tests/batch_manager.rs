use open_protocol_device_simulator::batch_manager::{BatchManager, BatchStatus};

#[test]
fn test_basic_batch_completion() {
    let mut manager = BatchManager::new(3);

    let info1 = manager.add_tightening(true);
    assert_eq!(info1.counter, 1);
    assert_eq!(info1.batch_status, BatchStatus::NotFinished);

    let info2 = manager.add_tightening(true);
    assert_eq!(info2.counter, 2);
    assert_eq!(info2.batch_status, BatchStatus::NotFinished);

    let info3 = manager.add_tightening(true);
    assert_eq!(info3.counter, 3);
    assert_eq!(info3.batch_status, BatchStatus::CompletedOk);
    assert!(manager.is_complete());
}

#[test]
fn test_batch_with_nok() {
    let mut manager = BatchManager::new(3);

    let info1 = manager.add_tightening(true);
    assert_eq!(info1.counter, 1);

    let info2 = manager.add_tightening(false);
    assert_eq!(info2.counter, 1);

    let info3 = manager.add_tightening(true);
    assert_eq!(info3.counter, 2);

    let info4 = manager.add_tightening(true);
    assert_eq!(info4.counter, 3);
    assert_eq!(info4.batch_status, BatchStatus::CompletedNok);
    assert_eq!(manager.get_batch_status_value(), 0);
}

#[test]
fn test_batch_status_values() {
    let mut manager = BatchManager::new(2);

    manager.add_tightening(true);
    assert_eq!(manager.get_batch_status_value(), 2);

    manager.add_tightening(true);
    assert_eq!(manager.get_batch_status_value(), 1);

    manager.reset();
    manager.add_tightening(false);
    manager.add_tightening(true);
    manager.add_tightening(true);
    assert_eq!(manager.get_batch_status_value(), 0);
}

#[test]
fn test_batch_reset() {
    let mut manager = BatchManager::new(2);

    manager.add_tightening(true);
    manager.add_tightening(true);
    assert!(manager.is_complete());

    manager.reset();
    assert!(!manager.is_complete());
    assert_eq!(manager.counter(), 0);

    let info = manager.add_tightening(true);
    assert_eq!(info.counter, 1);
    assert_eq!(info.batch_status, BatchStatus::NotFinished);
}

#[test]
fn test_batch_size_change() {
    let mut manager = BatchManager::new(3);

    manager.add_tightening(true);
    manager.add_tightening(true);

    manager.set_target_size(4);
    assert_eq!(manager.counter(), 0);
    assert!(!manager.is_complete());
}

#[test]
fn test_tightening_id_sequence() {
    let mut manager = BatchManager::new(2);

    let info1 = manager.add_tightening(true);
    let info2 = manager.add_tightening(true);

    assert_eq!(info1.tightening_id, 1);
    assert_eq!(info2.tightening_id, 2);

    manager.reset();
    let info3 = manager.add_tightening(true);
    assert_eq!(info3.tightening_id, 3);
}

#[test]
fn test_single_tightening_batch() {
    let mut manager = BatchManager::new(1);

    let info = manager.add_tightening(true);
    assert_eq!(info.counter, 1);
    assert_eq!(info.batch_status, BatchStatus::CompletedOk);
    assert!(manager.is_complete());
}

#[test]
fn test_nok_doesnt_increment_counter() {
    let mut manager = BatchManager::new(3);

    let info1 = manager.add_tightening(true);
    assert_eq!(info1.counter, 1);

    let info2 = manager.add_tightening(false);
    assert_eq!(info2.counter, 1);
    assert_eq!(info2.tightening_id, 2);

    let info3 = manager.add_tightening(true);
    assert_eq!(info3.counter, 2);

    let info4 = manager.add_tightening(true);
    assert_eq!(info4.counter, 3);
    assert_eq!(info4.batch_status, BatchStatus::CompletedNok);
}

#[test]
fn test_tightening_id_always_increments() {
    let mut manager = BatchManager::new(2);

    let info1 = manager.add_tightening(true);
    assert_eq!(info1.tightening_id, 1);

    let info2 = manager.add_tightening(false);
    assert_eq!(info2.tightening_id, 2);

    let info3 = manager.add_tightening(true);
    assert_eq!(info3.tightening_id, 3);

    let info4 = manager.add_tightening(true);
    assert_eq!(info4.tightening_id, 4);
}

#[test]
fn test_multiple_nok_retries() {
    let mut manager = BatchManager::new(2);

    let info1 = manager.add_tightening(true);
    assert_eq!(info1.counter, 1);
    assert_eq!(info1.tightening_id, 1);

    let info2 = manager.add_tightening(false);
    assert_eq!(info2.counter, 1);
    assert_eq!(info2.tightening_id, 2);

    let info3 = manager.add_tightening(false);
    assert_eq!(info3.counter, 1);
    assert_eq!(info3.tightening_id, 3);

    let info4 = manager.add_tightening(true);
    assert_eq!(info4.counter, 2);
    assert_eq!(info4.tightening_id, 4);
    assert_eq!(info4.batch_status, BatchStatus::CompletedNok);
}

#[test]
fn test_batch_completion_with_retry() {
    let mut manager = BatchManager::new(4);

    manager.add_tightening(true);
    manager.add_tightening(false);
    manager.add_tightening(true);
    manager.add_tightening(true);

    let final_info = manager.add_tightening(true);
    assert_eq!(final_info.counter, 4);
    assert_eq!(final_info.tightening_id, 5);
    assert_eq!(final_info.batch_status, BatchStatus::CompletedNok);
    assert!(manager.is_complete());
}
