use open_protocol_device_simulator::handler::data::{
    CommunicationStartAck, ErrorCode, ErrorResponse, MultiSpindleResultBroadcast,
    MultiSpindleStatusBroadcast, PsetSelected, VehicleIdBroadcast,
};
use open_protocol_device_simulator::multi_spindle::{
    MultiSpindleResult, MultiSpindleStatus, SpindleResult,
};
use open_protocol_device_simulator::protocol::response_data::ResponseData;

#[test]
fn test_communication_start_ack_serialization() {
    let ack = CommunicationStartAck::new();
    let data = ack.serialize();

    assert!(!data.is_empty());
}

#[test]
fn test_custom_values() {
    let ack = CommunicationStartAck::with_values(
        100,
        5,
        "TestController".to_string(),
        Some("TST".to_string()),
    );
    let data = ack.serialize();

    assert!(!data.is_empty());
}

#[test]
fn test_error_response_serialization() {
    let error = ErrorResponse::new(18, ErrorCode::ParameterSetNotFound);
    let data = error.serialize();

    assert_eq!(data.len(), 6);
    assert_eq!(&data[..], b"001805");
}

#[test]
fn test_revision_unsupported() {
    let error = ErrorResponse::revision_unsupported(1);
    let data = error.serialize();
    assert_eq!(&data[..], b"000101");
}

#[test]
fn test_pset_selected_serialization() {
    let pset = PsetSelected::new(5);
    let data = pset.serialize();
    assert_eq!(&data[..], b"005");
}

#[test]
fn test_pset_selected_large_id() {
    let pset = PsetSelected::new(123);
    let data = pset.serialize();
    assert_eq!(&data[..], b"123");
}

#[test]
fn test_vehicle_id_broadcast_exact_length() {
    let broadcast = VehicleIdBroadcast::new("SSC044207                ".to_string());
    let data = broadcast.serialize();
    assert_eq!(data.len(), 25);
    assert_eq!(&data[..], b"SSC044207                ");
}

#[test]
fn test_vehicle_id_broadcast_short_vin() {
    let broadcast = VehicleIdBroadcast::new("TEST123".to_string());
    let data = broadcast.serialize();
    assert_eq!(data.len(), 25);
    assert_eq!(&data[..], b"TEST123                  ");
}

#[test]
fn test_vehicle_id_broadcast_long_vin() {
    let broadcast =
        VehicleIdBroadcast::new("THIS_IS_A_VERY_LONG_VIN_NUMBER_THAT_EXCEEDS_25_CHARS".to_string());
    let data = broadcast.serialize();
    assert_eq!(data.len(), 25);
    assert_eq!(&data[..], b"THIS_IS_A_VERY_LONG_VIN_N");
}

#[test]
fn test_vehicle_id_broadcast_empty() {
    let broadcast = VehicleIdBroadcast::new(String::new());
    let data = broadcast.serialize();
    assert_eq!(data.len(), 25);
    assert_eq!(&data[..], b"                         ");
}

#[test]
fn test_multi_spindle_status_broadcast_serialization() {
    let status = MultiSpindleStatus {
        sync_id: 123,
        status: 1,
        spindle_count: 4,
        timestamp: "2024-01-15 14:30:45".to_string(),
    };

    let broadcast = MultiSpindleStatusBroadcast::new(status);
    let data = broadcast.serialize();

    let data_str = String::from_utf8_lossy(&data);

    assert_eq!(&data_str[0..4], "0123");
    assert_eq!(&data_str[4..5], "1");
    assert_eq!(&data_str[5..7], "04");
    assert_eq!(&data_str[7..26], "2024-01-15 14:30:45");
}

#[test]
fn test_multi_spindle_status_broadcast_waiting() {
    let broadcast = MultiSpindleStatusBroadcast::from_sync_id(100, 2, 0);
    let data = broadcast.serialize();
    let data_str = String::from_utf8_lossy(&data);

    assert_eq!(&data_str[0..4], "0100");
    assert_eq!(&data_str[4..5], "0");
    assert_eq!(&data_str[5..7], "02");
}

#[test]
fn test_multi_spindle_status_broadcast_completed() {
    let broadcast = MultiSpindleStatusBroadcast::from_sync_id(999, 16, 2);
    let data = broadcast.serialize();
    let data_str = String::from_utf8_lossy(&data);

    assert_eq!(&data_str[0..4], "0999");
    assert_eq!(&data_str[4..5], "2");
    assert_eq!(&data_str[5..7], "16");
}

#[test]
fn test_multi_spindle_status_broadcast_length() {
    let broadcast = MultiSpindleStatusBroadcast::from_sync_id(1, 2, 1);
    let data = broadcast.serialize();

    assert_eq!(data.len(), 26);
}

#[test]
fn test_multi_spindle_result_broadcast_two_spindles() {
    let spindle1 = SpindleResult {
        spindle_id: 1,
        channel_id: 1,
        torque: 5000,
        angle: 1800,
        torque_status: 1,
        angle_status: 0,
    };

    let spindle2 = SpindleResult {
        spindle_id: 2,
        channel_id: 2,
        torque: 5100,
        angle: 1850,
        torque_status: 1,
        angle_status: 0,
    };

    let spindles = vec![spindle1, spindle2];
    let result = MultiSpindleResult::new(1, 100, spindles);

    let broadcast =
        MultiSpindleResultBroadcast::new(result, "TEST_VIN_12345".to_string(), 1, 10, 0, 0, 2);

    let data = broadcast.serialize();
    let data_str = String::from_utf8_lossy(&data);

    assert!(data_str.contains("0102"));
    assert!(data_str.contains("02TEST_VIN_12345"));
    assert!(data_str.contains("1600001"));
    assert!(data_str.contains("171"));
}

#[test]
fn test_multi_spindle_result_broadcast_with_nok() {
    let spindle1 = SpindleResult {
        spindle_id: 1,
        channel_id: 1,
        torque: 5000,
        angle: 1800,
        torque_status: 1,
        angle_status: 0,
    };

    let spindle2 = SpindleResult {
        spindle_id: 2,
        channel_id: 2,
        torque: 4000,
        angle: 1850,
        torque_status: 0,
        angle_status: 0,
    };

    let spindles = vec![spindle1, spindle2];
    let result = MultiSpindleResult::new(1, 100, spindles);

    let broadcast = MultiSpindleResultBroadcast::new(result, "VIN".to_string(), 1, 10, 0, 0, 2);

    let data = broadcast.serialize();
    let data_str = String::from_utf8_lossy(&data);

    assert!(data_str.contains("170"));
}
