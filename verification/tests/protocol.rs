use open_protocol_device_simulator::protocol::field::{Field, FieldBuilder};
use open_protocol_device_simulator::protocol::parser::parse_message;
use open_protocol_device_simulator::protocol::serializer::serialize_response;
use open_protocol_device_simulator::protocol::{ProtocolError, Response};

#[test]
fn test_field_serialization() {
    let field = Field::new(Some(1), "TEST");
    let serialized = field.serialize();
    assert_eq!(serialized, b"01TEST");
}

#[test]
fn test_int_field() {
    let field = Field::from_int(Some(2), 123, 5);
    let serialized = field.serialize();
    assert_eq!(serialized, b"0200123");
}

#[test]
fn test_str_field() {
    let field = Field::from_str(Some(3), "ABC", 10);
    let serialized = field.serialize();
    assert_eq!(serialized, b"03ABC       ");
}

#[test]
fn test_builder() {
    let data = FieldBuilder::new().add_int(Some(1), 100, 3).add_str(Some(2), "TEST", 5).build();

    assert!(!data.is_empty());

    let data_str = String::from_utf8_lossy(&data);

    assert!(data_str.starts_with("01"));
    assert!(data_str.contains("02"));
    assert!(data_str.contains("TEST"));
}

#[test]
fn test_parse_simple_message() {
    let raw = b"00200001001         ";
    let msg = parse_message(raw).unwrap();
    assert_eq!(msg.length, 20);
    assert_eq!(msg.mid, 1);
    assert_eq!(msg.revision, 1);
    assert_eq!(msg.data.len(), 0);
}

#[test]
fn test_parse_message_with_data() {
    let raw = b"00450050001         SSC044207                ";
    let msg = parse_message(raw).unwrap();
    assert_eq!(msg.length, 45);
    assert_eq!(msg.mid, 50);
    assert_eq!(msg.revision, 1);
    assert_eq!(msg.data.len(), 25);
}

#[test]
fn test_parse_too_short() {
    let raw = b"001";
    assert!(matches!(parse_message(raw), Err(ProtocolError::MessageTooShort(_))));
}

#[test]
fn test_serialize_simple_response() {
    let response = Response { mid: 1, revision: 1, data: Vec::new() };
    let serialized = serialize_response(&response);
    assert_eq!(serialized, b"00200001001         ");
}

#[test]
fn test_serialize_response_with_data() {
    let response = Response { mid: 50, revision: 1, data: b"TEST".to_vec() };
    let serialized = serialize_response(&response);
    assert_eq!(serialized, b"00240050001         TEST");
}
