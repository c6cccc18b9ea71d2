//! Wire codec behavior: framing layout, round trips, and failure modes.

use tcp_server::message::{DecodeError, Message, OpCode};

#[test]
fn encode_layout_is_exact() {
    let m = Message::new_request(0x0102_0304, OpCode::Store, vec![0xAA, 0xBB]);
    let bytes = m.to_bytes();
    assert_eq!(
        bytes,
        vec![1u8, 0x01, 0x02, 0x03, 0x04, 2, 0, 0, 0, 2, 0xAA, 0xBB]
    );
}

#[test]
fn encode_empty_payload() {
    let m = Message::new_request(7, OpCode::Ping, Vec::new());
    let bytes = m.to_bytes();
    assert_eq!(bytes, vec![1u8, 0, 0, 0, 7, 1, 0, 0, 0, 0]);
}

#[test]
fn round_trip_request() {
    let m = Message::new_request(42, OpCode::Retrieve, vec![9, 8, 7]);
    let bytes = m.to_bytes();
    let back = Message::from_bytes(&bytes).expect("frame should decode");
    assert_eq!(back.message_type, m.message_type);
    assert_eq!(back.request_id, m.request_id);
    assert_eq!(back.op_code, m.op_code);
    assert_eq!(back.payload_len, m.payload_len);
    assert_eq!(back.payload, m.payload);
}

#[test]
fn round_trip_response_and_error_kinds() {
    let resp = Message::new_response(1, b"OK".to_vec());
    let back = Message::from_bytes(&resp.to_bytes()).expect("response should decode");
    assert_eq!(back.message_type, 2);
    assert_eq!(back.payload, b"OK".to_vec());

    let err = Message::new_error(0xFFFF_FFFF, "boom".to_string());
    let back = Message::from_bytes(&err.to_bytes()).expect("error frame should decode");
    assert_eq!(back.message_type, 3);
    assert_eq!(back.request_id, 0xFFFF_FFFF);
    assert_eq!(back.payload, b"boom".to_vec());
}

#[test]
fn truncated_header_is_reported() {
    let bytes = vec![1u8, 0, 0, 0];
    assert!(matches!(Message::from_bytes(&bytes), Err(DecodeError::Truncated)));
    assert!(matches!(Message::from_bytes(&Vec::new()), Err(DecodeError::Truncated)));
}

#[test]
fn declared_length_past_available_bytes_is_truncation() {
    // Header declares a 5-byte payload but only 3 bytes follow.
    let bytes = vec![1u8, 0, 0, 0, 1, 1, 0, 0, 0, 5, 0xAA, 0xBB, 0xCC];
    assert!(matches!(Message::from_bytes(&bytes), Err(DecodeError::Truncated)));
}

#[test]
fn invalid_op_byte_is_a_protocol_error() {
    let bytes = vec![1u8, 0, 0, 0, 1, 9, 0, 0, 0, 0];
    assert!(matches!(Message::from_bytes(&bytes), Err(DecodeError::InvalidOpCode(9))));
    let bytes = vec![1u8, 0, 0, 0, 1, 0, 0, 0, 0, 0];
    assert!(matches!(Message::from_bytes(&bytes), Err(DecodeError::InvalidOpCode(0))));
}

#[test]
fn op_byte_checked_after_payload_bounds() {
    // Bad op byte and truncated payload: the short read wins, as a stream
    // reader would hit it first.
    let bytes = vec![1u8, 0, 0, 0, 1, 9, 0, 0, 0, 5, 1, 2];
    assert!(matches!(Message::from_bytes(&bytes), Err(DecodeError::Truncated)));
}

#[test]
fn trailing_bytes_are_left_alone() {
    let m = Message::new_request(3, OpCode::Delete, vec![5]);
    let mut bytes = m.to_bytes();
    bytes.extend_from_slice(&[0xDE, 0xAD]);
    let back = Message::from_bytes(&bytes).expect("frame should decode");
    assert_eq!(back.request_id, 3);
    assert_eq!(back.payload, vec![5]);
}

#[test]
fn any_kind_byte_decodes() {
    // The kind byte is carried as-is; unknown kinds are for the dispatcher
    // to reject, not the codec.
    let bytes = vec![77u8, 0, 0, 0, 1, 1, 0, 0, 0, 0];
    let back = Message::from_bytes(&bytes).expect("frame should decode");
    assert_eq!(back.message_type, 77);
    assert!(!back.is_request());
    assert!(!back.is_response());
    assert!(!back.is_error());
}

#[test]
fn kind_predicates() {
    assert!(Message::new_request(1, OpCode::Ping, Vec::new()).is_request());
    assert!(Message::new_response(1, Vec::new()).is_response());
    assert!(Message::new_error(1, "e".to_string()).is_error());
}

#[test]
fn op_code_byte_round_trip() {
    for (op, byte) in [
        (OpCode::Ping, 1u8),
        (OpCode::Store, 2),
        (OpCode::Retrieve, 3),
        (OpCode::Delete, 4),
        (OpCode::List, 5),
    ] {
        assert_eq!(op.to_byte(), byte);
        assert_eq!(OpCode::from_byte(byte), Some(op));
    }
    assert_eq!(OpCode::from_byte(0), None);
    assert_eq!(OpCode::from_byte(6), None);
    assert_eq!(OpCode::from_byte(255), None);
}

#[test]
fn header_payload_len_reads_big_endian() {
    let m = Message::new_request(1, OpCode::Store, vec![0u8; 300]);
    let bytes = m.to_bytes();
    let header: Vec<u8> = bytes[..10].to_vec();
    assert_eq!(tcp_server::message::header_payload_len(&header), 300);
}
