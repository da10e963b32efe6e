use open_protocol_device_simulator::batch_manager::{BatchManager, BatchStatus};
use open_protocol_device_simulator::codec::NullDelimitedCodec;
use open_protocol_device_simulator::connection::{
    event_response, generic_error_response, initial_vin_response,
};
use open_protocol_device_simulator::events::SimulatorEvent;
use open_protocol_device_simulator::failure_simulator::{plan_send, FailureConfig, FailureSimulator};
use open_protocol_device_simulator::handler::create_default_registry;
use open_protocol_device_simulator::handler::HandlerError;
use open_protocol_device_simulator::multi_spindle::generate_multi_spindle_results;
use open_protocol_device_simulator::protocol::parser::parse_message;
use open_protocol_device_simulator::protocol::serializer::serialize_response;
use open_protocol_device_simulator::protocol::{Message, ProtocolError, Response};
use open_protocol_device_simulator::scheduler::{
    build_tightening_result, decide_final_ok, evaluate_cycle, finish_cycle, get_tightening_params,
    scheduler_poll, simulate_once, SchedulerDecision,
};
use open_protocol_device_simulator::session::ConnectionSession;
use open_protocol_device_simulator::state::DeviceState;
use open_protocol_device_simulator::subscriptions::Subscriptions;
use open_protocol_device_simulator::tightening_tracker::TighteningTracker;

fn message(mid: u16, revision: u8, data: &[u8]) -> Message {
    Message { length: (20 + data.len()) as u32, mid, revision, data: data.to_vec() }
}

#[test]
fn test_round_trip_parse_of_serialized_frame() {
    let response = Response { mid: 61, revision: 1, data: b"0100010201".to_vec() };
    let wire = serialize_response(&response);

    assert_eq!(wire.len(), 30);
    let parsed = parse_message(&wire).unwrap();
    assert_eq!(parsed.length as usize, wire.len());
    assert_eq!(parsed.mid, 61);
    assert_eq!(parsed.revision, 1);
    assert_eq!(parsed.data, b"0100010201");

    let again = serialize_response(&Response {
        mid: parsed.mid,
        revision: parsed.revision,
        data: parsed.data,
    });
    assert_eq!(again, wire);
}

#[test]
fn test_parser_rejects_length_mismatch() {
    let mut wire = serialize_response(&Response { mid: 1, revision: 1, data: Vec::new() }).to_vec();
    wire.push(b'X');
    match parse_message(&wire) {
        Err(ProtocolError::LengthMismatch { expected, actual }) => {
            assert_eq!(expected, 20);
            assert_eq!(actual, 21);
        },
        other => panic!("expected a length mismatch, got {:?}", other),
    }
}

#[test]
fn test_parser_rejects_non_digit_fields() {
    let raw = b"00XX0001001         ";
    assert!(matches!(parse_message(raw), Err(ProtocolError::InvalidLength(_))));

    let raw = b"0020 001001         ";
    assert!(matches!(parse_message(raw), Err(ProtocolError::InvalidMid(_))));

    let raw = b"002000x1001         ";
    assert!(matches!(parse_message(raw), Err(ProtocolError::InvalidMid(_))));

    let raw = b"00200001zz1         ";
    assert!(matches!(parse_message(raw), Err(ProtocolError::InvalidRevision(_))));

    let raw = b"00200001999         ";
    assert!(matches!(parse_message(raw), Err(ProtocolError::InvalidRevision(_))));
}

#[test]
fn test_nok_retry_sequence() {
    let mut tracker = TighteningTracker::new();
    tracker.enable_batch(2);

    let info1 = tracker.add_tightening(true);
    let info2 = tracker.add_tightening(false);
    let info3 = tracker.add_tightening(true);
    let info4 = tracker.add_tightening(true);

    assert_eq!(
        (info1.counter, info2.counter, info3.counter, info4.counter),
        (1, 1, 2, 2),
    );
    assert_eq!(
        (
            info1.tightening_id,
            info2.tightening_id,
            info3.tightening_id,
            info4.tightening_id,
        ),
        (1, 2, 3, 4),
    );
    assert_eq!(info3.batch_status, BatchStatus::CompletedNok);
}

#[test]
fn test_single_batch_completes_ok_immediately() {
    let mut manager = BatchManager::new(1);
    let info = manager.add_tightening(true);
    assert_eq!(info.batch_status, BatchStatus::CompletedOk);
}

#[test]
fn test_set_target_size_idempotent() {
    let mut once = BatchManager::new(3);
    once.add_tightening(true);
    let mut twice = once.clone();

    once.set_target_size(5);
    twice.set_target_size(5);
    twice.set_target_size(5);

    assert_eq!(once, twice);
}

#[test]
fn test_set_target_size_resets_even_at_same_size() {
    let mut manager = BatchManager::new(2);
    manager.add_tightening(true);
    assert_eq!(manager.counter(), 1);

    manager.set_target_size(2);
    assert_eq!(manager.counter(), 0);
    assert!(!manager.is_complete());
    assert_eq!(manager.target_size(), 2);
}

#[test]
fn test_error_response_body_is_six_bytes() {
    let error = generic_error_response(1234, 1);
    assert_eq!(error.mid, 4);
    assert_eq!(error.data.len(), 6);
    assert_eq!(error.data, b"123499");
}

#[test]
fn test_from_health_full_health_disables_everything() {
    let config = FailureConfig::from_health(100);
    assert!(!config.enabled);
    assert_eq!(config.packet_loss_permyriad, 0);
    assert_eq!(config.delay_max_ms, 0);
    assert_eq!(config.corruption_permyriad, 0);
    assert_eq!(config.force_disconnect_permyriad, 0);
}

#[test]
fn test_from_health_zero_health_maximum_failures() {
    let config = FailureConfig::from_health(0);
    assert!(config.enabled);
    assert_eq!(config.packet_loss_permyriad, 5000);
    assert_eq!(config.delay_max_ms, 1000);
    assert_eq!(config.corruption_permyriad, 1000);
    assert_eq!(config.force_disconnect_permyriad, 500);
}

#[test]
fn test_from_health_mid_health_moderate_failures() {
    let config = FailureConfig::from_health(50);
    assert!(config.enabled);
    assert_eq!(config.packet_loss_permyriad, 2500);
    assert_eq!(config.delay_max_ms, 500);
    assert_eq!(config.corruption_permyriad, 0);
    assert_eq!(config.force_disconnect_permyriad, 0);
    assert!(config.is_valid());
}

#[test]
fn test_failure_config_validation() {
    let mut config = FailureConfig::default();
    assert!(config.is_valid());

    config.connection_health = 150;
    assert!(!config.is_valid());

    config.connection_health = 50;
    config.packet_loss_permyriad = 15000;
    assert!(!config.is_valid());

    config.packet_loss_permyriad = 5000;
    config.delay_min_ms = 1000;
    config.delay_max_ms = 500;
    assert!(!config.is_valid());
}

#[test]
fn test_simulator_disabled_behavior() {
    let config = FailureConfig::default();
    let mut sim = FailureSimulator::new(config);

    assert!(!sim.is_enabled());
    assert!(!sim.should_drop_packet());
    assert_eq!(sim.get_delay(), 0);
    assert!(!sim.should_corrupt_message());
    assert!(!sim.should_disconnect());
}

#[test]
fn test_corrupt_message_changes_or_bounds() {
    let config = FailureConfig { enabled: true, ..FailureConfig::from_health(0) };
    let mut sim = FailureSimulator::new(config);
    let original = b"00200001001         001";

    // For this frame none of the five mutations can reproduce the input,
    // so every outcome differs from it.
    for _ in 0..50 {
        let corrupted = sim.corrupt_message(original);
        assert!(!corrupted.is_empty());
        assert!(corrupted.len() <= original.len() + 10);
        assert_ne!(&corrupted[..], &original[..]);
        if corrupted.len() < original.len() {
            assert_eq!(&corrupted[..], &original[..corrupted.len()]);
        }
        if corrupted.len() > original.len() {
            assert_eq!(&corrupted[..original.len()], &original[..]);
        }
    }
}

#[test]
fn test_plan_send_certain_drop_and_corrupt() {
    let config = FailureConfig {
        enabled: true,
        connection_health: 0,
        packet_loss_permyriad: 10000,
        delay_min_ms: 0,
        delay_max_ms: 0,
        corruption_permyriad: 10000,
        force_disconnect_permyriad: 0,
    };
    let decisions = plan_send(&config, b"00200001001         ");
    assert!(!decisions.disconnect);
    assert!(decisions.drop_packet);
    assert!(decisions.corrupt);
}

#[test]
fn test_plan_send_disabled_passes_frame_through() {
    let config = FailureConfig::default();
    let decisions = plan_send(&config, b"00200001001         ");
    assert!(!decisions.disconnect);
    assert!(!decisions.drop_packet);
    assert_eq!(decisions.delay_ms, 0);
    assert!(!decisions.corrupt);
    assert_eq!(decisions.bytes, b"00200001001         ");
}

#[test]
fn test_plan_send_certain_disconnect() {
    let config = FailureConfig {
        enabled: true,
        connection_health: 0,
        packet_loss_permyriad: 0,
        delay_min_ms: 0,
        delay_max_ms: 0,
        corruption_permyriad: 0,
        force_disconnect_permyriad: 10000,
    };
    let decisions = plan_send(&config, b"00200001001         ");
    assert!(decisions.disconnect);
}

#[test]
fn test_multi_spindle_overall_status_boundary() {
    let config = open_protocol_device_simulator::multi_spindle::MultiSpindleConfig::new(3, 7);

    let failing = generate_multi_spindle_results(&config, 10, 1);
    assert_eq!(failing.overall_status, 1);
    let last = failing.spindle_results.last().unwrap();
    assert_eq!(last.torque_status, 1);
    assert_eq!(last.angle_status, 0);
    assert_eq!(last.torque, 5000 + 2 * 50 - 500);

    let passing = generate_multi_spindle_results(&config, 11, 1);
    assert_eq!(passing.overall_status, 0);
    assert!(passing.spindle_results.iter().all(|s| s.is_ok()));
}

#[test]
fn test_enable_multi_spindle_rejects_out_of_range_counts() {
    let mut state = DeviceState::new();
    let before = state.multi_spindle_config;

    assert!(state.enable_multi_spindle(1, 9).is_err());
    assert_eq!(state.multi_spindle_config, before);

    assert!(state.enable_multi_spindle(17, 9).is_err());
    assert_eq!(state.multi_spindle_config, before);

    assert!(state.enable_multi_spindle(2, 9).is_ok());
    assert!(state.multi_spindle_config.enabled);
    assert_eq!(state.multi_spindle_config.spindle_count, 2);
    assert_eq!(state.multi_spindle_config.sync_id, 9);
}

#[test]
fn test_registry_dispatch_communication_start() {
    let registry = create_default_registry();
    let mut state = DeviceState::new();
    let mut events = Vec::new();

    let response = registry
        .handle_message(&mut state, &message(1, 1, b""), &mut events)
        .unwrap();
    assert_eq!(response.mid, 2);
    assert_eq!(response.revision, 1);
    let expected = b"0100010201" as &[u8];
    assert_eq!(&response.data[..10], expected);
    assert_eq!(&response.data[10..12], b"03");
    assert_eq!(&response.data[12..37], b"OpenProtocolSimulator    ");
    assert_eq!(&response.data[37..], b"04SIM");
    assert!(events.is_empty());
}

#[test]
fn test_registry_dispatch_pset_select_and_notify() {
    let registry = create_default_registry();
    let mut state = DeviceState::new();
    let mut events = Vec::new();

    let response = registry
        .handle_message(&mut state, &message(18, 1, b"005"), &mut events)
        .unwrap();
    assert_eq!(response.mid, 16);
    assert_eq!(state.current_pset_id, Some(5));
    assert_eq!(state.current_pset_name.as_deref(), Some("Pset_5"));

    assert_eq!(events.len(), 1);
    match &events[0] {
        SimulatorEvent::PsetChanged { pset_id, pset_name } => {
            assert_eq!(*pset_id, 5);
            assert_eq!(pset_name, "Pset_5");
        },
        other => panic!("expected a pset change, got {:?}", other),
    }

    let mut subs = Subscriptions::new();
    subs.subscribe_pset_selection();
    let push = event_response(&events[0], &subs).unwrap();
    assert_eq!(push.mid, 15);
    assert_eq!(push.data, b"005");

    let unsubscribed = Subscriptions::new();
    assert!(event_response(&events[0], &unsubscribed).is_none());
}

#[test]
fn test_registry_dispatch_batch_flow() {
    let registry = create_default_registry();
    let mut state = DeviceState::new();
    let mut events = Vec::new();

    let response = registry
        .handle_message(&mut state, &message(19, 1, b"0010003"), &mut events)
        .unwrap();
    assert_eq!(response.mid, 5);
    assert_eq!(response.data, b"0019");
    assert!(state.tightening_tracker.is_batch_mode());
    assert_eq!(state.tightening_tracker.batch_size(), 3);

    let response = registry
        .handle_message(&mut state, &message(20, 1, b"001"), &mut events)
        .unwrap();
    assert_eq!(response.mid, 5);
    assert_eq!(response.data, b"0020");

    let mut single = DeviceState::new();
    let response = registry
        .handle_message(&mut single, &message(20, 1, b"001"), &mut events)
        .unwrap();
    assert_eq!(response.mid, 4);
    assert_eq!(response.data, b"002004");
}

#[test]
fn test_registry_dispatch_tool_and_vehicle() {
    let registry = create_default_registry();
    let mut state = DeviceState::new();
    let mut events = Vec::new();

    let response = registry
        .handle_message(&mut state, &message(42, 1, b""), &mut events)
        .unwrap();
    assert_eq!(response.mid, 5);
    assert!(!state.tool_enabled);

    let response = registry
        .handle_message(&mut state, &message(43, 1, b""), &mut events)
        .unwrap();
    assert_eq!(response.mid, 5);
    assert!(state.tool_enabled);

    let response = registry
        .handle_message(&mut state, &message(50, 1, b"VIN12345  "), &mut events)
        .unwrap();
    assert_eq!(response.mid, 5);
    assert_eq!(state.vehicle_id.as_deref(), Some("VIN12345"));

    assert_eq!(events.len(), 3);
    assert!(matches!(events[0], SimulatorEvent::ToolStateChanged { enabled: false }));
    assert!(matches!(events[1], SimulatorEvent::ToolStateChanged { enabled: true }));
    assert!(matches!(&events[2], SimulatorEvent::VehicleIdChanged { vin } if vin == "VIN12345"));
}

#[test]
fn test_registry_rejects_unknown_mid() {
    let registry = create_default_registry();
    let mut state = DeviceState::new();
    let mut events = Vec::new();

    let result = registry.handle_message(&mut state, &message(777, 1, b""), &mut events);
    assert!(matches!(result, Err(HandlerError::UnknownMid(777))));
}

#[test]
fn test_registry_keep_alive_echo() {
    let registry = create_default_registry();
    let mut state = DeviceState::new();
    let mut events = Vec::new();

    let response = registry
        .handle_message(&mut state, &message(9999, 1, b""), &mut events)
        .unwrap();
    assert_eq!(response.mid, 9999);
    assert!(response.data.is_empty());
}

#[test]
fn test_initial_vin_push_is_blank() {
    let response = initial_vin_response();
    assert_eq!(response.mid, 52);
    assert_eq!(response.data, vec![b' '; 25]);
}

#[test]
fn test_codec_round_trip() {
    let codec = NullDelimitedCodec::new();

    let encoded = codec.encode(b"0020");
    assert_eq!(encoded, b"0020\0");

    let mut stream = encoded.clone();
    stream.extend_from_slice(b"rest");
    let (frame, rest) = codec.decode(&stream).unwrap();
    assert_eq!(frame, b"0020");
    assert_eq!(rest, b"rest");

    assert!(codec.decode(b"no delimiter yet").is_none());
}

#[test]
fn test_session_lifecycle_and_subscriptions() {
    let session = ConnectionSession::new();
    let session = session.connect("127.0.0.1:8080".to_string(), 1_000);
    assert_eq!(session.addr(), "127.0.0.1:8080");
    assert_eq!(session.connected_at(), 1_000);

    let mut session = session.authenticate(1_000);
    assert_eq!(session.subscriptions().active_count(), 0);

    session.apply_subscription_mid(60);
    assert!(session.subscriptions().is_subscribed_to_tightening_result());
    session.apply_subscription_mid(63);
    assert!(!session.subscriptions().is_subscribed_to_tightening_result());

    session.update_keep_alive(2_000);
    assert!(!session.is_timed_out(3_000, 15));
    assert!(session.is_timed_out(17_000, 15));

    let _ = session.disconnect();
}

#[test]
fn test_scheduler_poll_decisions() {
    let mut state = DeviceState::new();
    assert_eq!(scheduler_poll(&state), SchedulerDecision::Run);

    state.disable_tool();
    assert_eq!(scheduler_poll(&state), SchedulerDecision::Exit);

    state.enable_tool();
    state.set_batch_size(1);
    assert_eq!(scheduler_poll(&state), SchedulerDecision::Run);

    state.tightening_tracker.add_tightening(true);
    assert_eq!(scheduler_poll(&state), SchedulerDecision::Sleep);
}

#[test]
fn test_decide_final_ok_override() {
    assert!(decide_final_ok(150, 25, true));
    assert!(!decide_final_ok(120, 25, true));
    assert!(!decide_final_ok(150, 25, false));
    assert!(decide_final_ok(0, 0, true));
    assert!(!decide_final_ok(99, 100, true));
}

#[test]
fn test_get_tightening_params_midpoints() {
    let repo = open_protocol_device_simulator::pset::InMemoryPsetRepository::new();
    let pset = repo.get_by_id(2).unwrap();
    let params = get_tightening_params(Some(&pset), 800);
    assert_eq!(params.target_torque_cnm, 1250);
    assert_eq!(params.torque_min_cnm, 1000);
    assert_eq!(params.torque_max_cnm, 1500);
    assert_eq!(params.target_angle_ddeg, 425);
    assert_eq!(params.duration_ms, 800);

    let fallback = get_tightening_params(None, 800);
    assert_eq!(fallback.duration_ms, 1500);
    assert_eq!(fallback.target_torque_cnm, 1250);
}

#[test]
fn test_simulate_once_counts_batch() {
    let mut state = DeviceState::new();
    state.set_batch_size(3);
    let params = get_tightening_params(None, 1500);
    let mut events = Vec::new();

    // A zero nanosecond reading keeps the outcome at the low anchor, which
    // lies inside the default test ranges, so each cycle is OK.
    let c1 = simulate_once(&mut state, &params, 0, &mut events);
    let c2 = simulate_once(&mut state, &params, 0, &mut events);
    let c3 = simulate_once(&mut state, &params, 0, &mut events);
    assert_eq!((c1, c2, c3), (1, 2, 3));
    assert!(state.tightening_tracker.is_complete());

    let completions: Vec<_> = events
        .iter()
        .filter(|e| matches!(e, SimulatorEvent::BatchCompleted { .. }))
        .collect();
    assert_eq!(completions.len(), 1);
    assert!(matches!(completions[0], SimulatorEvent::BatchCompleted { total: 3 }));
}

#[test]
fn test_finish_cycle_multi_spindle_event_order() {
    let mut state = DeviceState::new();
    state.enable_multi_spindle(2, 100).unwrap();
    let params = get_tightening_params(None, 10);
    let mut events = Vec::new();

    finish_cycle(&mut state, &params, 0, 0, 0, true, &mut events);

    assert!(matches!(
        &events[0],
        SimulatorEvent::MultiSpindleStatusCompleted { status } if status.status == 1 && status.sync_id == 100
    ));
    assert!(matches!(
        &events[1],
        SimulatorEvent::MultiSpindleResultCompleted { result } if result.spindle_count == 2 && result.overall_status == 0
    ));
    assert!(matches!(
        &events[2],
        SimulatorEvent::MultiSpindleStatusCompleted { status } if status.status == 2
    ));
    assert!(matches!(&events[3], SimulatorEvent::AutoTighteningProgress { running: true, .. }));
    assert_eq!(
        state.device_fsm_state,
        open_protocol_device_simulator::device_fsm::DeviceFSMState::Idle
    );
}

#[test]
fn test_build_tightening_result_maps_batch_status() {
    let mut state = DeviceState::new();
    state.set_batch_size(1);
    let params = get_tightening_params(None, 1500);
    let info = state.tightening_tracker.add_tightening(true);

    let record = build_tightening_result(&state, &info, 1250, 400, true, true, true, &params);
    assert_eq!(record.batch_counter, 1);
    assert_eq!(record.batch_size, 1);
    assert_eq!(record.batch_status, Some(true));
    assert_eq!(record.tightening_id, Some(1));
    assert_eq!(record.torque_cnm, 1250);
    assert_eq!(record.angle_ddeg, 400);
}

#[test]
fn test_get_delay_stays_within_window() {
    let config = FailureConfig {
        enabled: true,
        connection_health: 50,
        packet_loss_permyriad: 0,
        delay_min_ms: 100,
        delay_max_ms: 200,
        corruption_permyriad: 0,
        force_disconnect_permyriad: 0,
    };
    let mut sim = FailureSimulator::new(config);
    for _ in 0..50 {
        let delay = sim.get_delay();
        assert!((100..=200).contains(&delay));
    }
}

#[test]
fn test_pset_select_trims_its_field() {
    let registry = create_default_registry();
    let mut state = DeviceState::new();
    let mut events = Vec::new();

    let response = registry
        .handle_message(&mut state, &message(18, 1, b" 12 "), &mut events)
        .unwrap();
    assert_eq!(response.mid, 16);
    assert_eq!(state.current_pset_id, Some(12));
    assert_eq!(state.current_pset_name.as_deref(), Some("Pset_12"));
}

#[test]
fn test_pset_select_defaults_on_junk() {
    let registry = create_default_registry();
    let mut state = DeviceState::new();
    let mut events = Vec::new();

    registry.handle_message(&mut state, &message(18, 1, b"x?z"), &mut events).unwrap();
    assert_eq!(state.current_pset_id, Some(1));

    registry.handle_message(&mut state, &message(18, 1, b""), &mut events).unwrap();
    assert_eq!(state.current_pset_id, Some(1));
}

#[test]
fn test_batch_size_overflow_falls_back_to_one() {
    let registry = create_default_registry();
    let mut state = DeviceState::new();
    let mut events = Vec::new();

    registry
        .handle_message(&mut state, &message(19, 1, b"0019999999999"), &mut events)
        .unwrap();
    assert!(state.tightening_tracker.is_batch_mode());
    assert_eq!(state.tightening_tracker.batch_size(), 1);
}

#[test]
fn test_vehicle_download_without_body_stores_placeholder() {
    let registry = create_default_registry();
    let mut state = DeviceState::new();
    let mut events = Vec::new();

    registry.handle_message(&mut state, &message(50, 1, b""), &mut events).unwrap();
    assert_eq!(state.vehicle_id.as_deref(), Some("NO_VIN"));
}

#[test]
fn test_evaluate_cycle_snapshots_outcome() {
    let mut state = DeviceState::new();
    let params = get_tightening_params(None, 10);

    evaluate_cycle(&mut state, &params, 0);

    match state.device_fsm_state {
        open_protocol_device_simulator::device_fsm::DeviceFSMState::Evaluating {
            ok,
            torque_ok,
            angle_ok,
            actual_torque_cnm,
            actual_angle_ddeg,
        } => {
            assert!(ok && torque_ok && angle_ok);
            assert_eq!(actual_torque_cnm, 1187);
            assert_eq!(actual_angle_ddeg, 380);
        }
        other => panic!("expected an evaluating snapshot, got {:?}", other),
    }
}
