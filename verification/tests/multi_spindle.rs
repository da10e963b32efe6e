use open_protocol_device_simulator::multi_spindle::{
    generate_multi_spindle_results, MultiSpindleConfig, MultiSpindleResult, MultiSpindleStatus,
    SpindleResult,
};

#[test]
fn test_multi_spindle_config_default() {
    let config = MultiSpindleConfig::default();
    assert!(!config.enabled);
    assert_eq!(config.spindle_count, 1);
    assert_eq!(config.sync_id, 0);
}

#[test]
fn test_multi_spindle_config_validation() {
    let config = MultiSpindleConfig::new(2, 100);
    assert!(config.is_valid());
    assert!(config.enabled);

    let invalid = MultiSpindleConfig { enabled: true, spindle_count: 1, sync_id: 100 };
    assert!(!invalid.is_valid());

    let too_many = MultiSpindleConfig { enabled: true, spindle_count: 17, sync_id: 100 };
    assert!(!too_many.is_valid());
}

#[test]
fn test_spindle_result_ok() {
    let result = SpindleResult::ok(1, 5000, 1800);
    assert_eq!(result.spindle_id, 1);
    assert_eq!(result.torque, 5000);
    assert_eq!(result.angle, 1800);
    assert!(result.is_ok());
}

#[test]
fn test_spindle_result_nok() {
    let result = SpindleResult::nok(2, 4500, 1750, true, false);
    assert_eq!(result.spindle_id, 2);
    assert_eq!(result.torque_status, 1);
    assert_eq!(result.angle_status, 0);
    assert!(!result.is_ok());
}

#[test]
fn test_multi_spindle_result_all_ok() {
    let spindles = vec![SpindleResult::ok(1, 5000, 1800), SpindleResult::ok(2, 5100, 1810)];

    let result = MultiSpindleResult::new(1, 100, spindles);
    assert_eq!(result.spindle_count, 2);
    assert!(result.is_ok());
    assert_eq!(result.ok_count(), 2);
    assert_eq!(result.nok_count(), 0);
}

#[test]
fn test_multi_spindle_result_with_failure() {
    let spindles = vec![
        SpindleResult::ok(1, 5000, 1800),
        SpindleResult::nok(2, 4500, 1750, true, false),
    ];

    let result = MultiSpindleResult::new(1, 100, spindles);
    assert_eq!(result.spindle_count, 2);
    assert!(!result.is_ok());
    assert_eq!(result.overall_status, 1);
    assert_eq!(result.ok_count(), 1);
    assert_eq!(result.nok_count(), 1);
}

#[test]
fn test_multi_spindle_status_transitions() {
    let waiting = MultiSpindleStatus::waiting(100, 4);
    assert_eq!(waiting.status, 0);
    assert_eq!(waiting.spindle_count, 4);

    let running = MultiSpindleStatus::running(100, 4);
    assert_eq!(running.status, 1);

    let completed = MultiSpindleStatus::completed(100, 4);
    assert_eq!(completed.status, 2);
}

#[test]
fn test_generate_multi_spindle_results() {
    let config = MultiSpindleConfig::new(4, 100);
    let result = generate_multi_spindle_results(&config, 1, 42);

    assert_eq!(result.spindle_count, 4);
    assert_eq!(result.spindle_results.len(), 4);
    assert_eq!(result.sync_id, 100);

    for (idx, spindle) in result.spindle_results.iter().enumerate() {
        assert_eq!(spindle.spindle_id, (idx + 1) as u8);
    }
}

#[test]
fn test_generate_multi_spindle_results_variation() {
    let config = MultiSpindleConfig::new(3, 200);
    let result = generate_multi_spindle_results(&config, 5, 10);

    let torques: Vec<i32> = result.spindle_results.iter().map(|s| s.torque).collect();
    assert_ne!(torques[0], torques[1]);
    assert_ne!(torques[1], torques[2]);
}

#[test]
fn test_generate_multi_spindle_results_occasional_failure() {
    let config = MultiSpindleConfig::new(2, 300);

    let result_fail = generate_multi_spindle_results(&config, 10, 1);
    assert!(!result_fail.is_ok());
    assert!(!result_fail.spindle_results[1].is_ok());

    let result_ok = generate_multi_spindle_results(&config, 11, 1);
    assert!(result_ok.is_ok());
}
