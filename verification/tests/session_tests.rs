//! Session step behavior: which events answer, which end the session, and
//! how.

use tcp_server::handler::ProtocolHandler;
use tcp_server::message::{DecodeError, Message, OpCode};
use tcp_server::session::{session_step, SessionEnd, SessionEvent};
use tcp_server::storage::KeyValueStore;

fn fresh_handler() -> ProtocolHandler {
    ProtocolHandler::new(KeyValueStore::new(100))
}

#[test]
fn frame_is_dispatched_and_session_continues() {
    let mut h = fresh_handler();
    let step = session_step(
        &mut h,
        SessionEvent::Frame(Message::new_request(11, OpCode::Ping, Vec::new())),
    );
    assert_eq!(step.end, None);
    let reply = step.reply.expect("a frame always gets a reply");
    assert!(reply.is_response());
    assert_eq!(reply.request_id, 11);
    assert_eq!(reply.payload, b"PONG".to_vec());
}

#[test]
fn error_reply_keeps_session_alive() {
    // A store failure is answered within the session, which keeps reading.
    let mut h = ProtocolHandler::new(KeyValueStore::new(1));
    let payload = bincode::serialize(&("k".to_string(), vec![0u8; 5])).unwrap();
    let step = session_step(
        &mut h,
        SessionEvent::Frame(Message::new_request(1, OpCode::Store, payload)),
    );
    assert_eq!(step.end, None);
    assert!(step.reply.unwrap().is_error());

    let step = session_step(
        &mut h,
        SessionEvent::Frame(Message::new_request(2, OpCode::Ping, Vec::new())),
    );
    assert_eq!(step.end, None);
    assert_eq!(step.reply.unwrap().payload, b"PONG".to_vec());
}

#[test]
fn peer_close_ends_cleanly_without_reply() {
    let mut h = fresh_handler();
    let step = session_step(&mut h, SessionEvent::PeerClosed);
    assert!(step.reply.is_none());
    assert_eq!(step.end, Some(SessionEnd::ClosedByPeer));
}

#[test]
fn transport_failure_ends_without_reply() {
    let mut h = fresh_handler();
    let step = session_step(&mut h, SessionEvent::TransportFailed);
    assert!(step.reply.is_none());
    assert_eq!(step.end, Some(SessionEnd::TransportFailure));
}

#[test]
fn truncated_read_is_a_transport_end() {
    let mut h = fresh_handler();
    let step = session_step(&mut h, SessionEvent::Malformed(DecodeError::Truncated));
    assert!(step.reply.is_none());
    assert_eq!(step.end, Some(SessionEnd::TransportFailure));
}

#[test]
fn invalid_opcode_sends_one_error_under_id_zero_then_ends() {
    let mut h = fresh_handler();
    let step = session_step(&mut h, SessionEvent::Malformed(DecodeError::InvalidOpCode(9)));
    assert_eq!(step.end, Some(SessionEnd::ProtocolFault));
    let reply = step.reply.expect("protocol fault is answered once");
    assert!(reply.is_error());
    assert_eq!(reply.request_id, 0);
    assert_eq!(reply.payload, b"Invalid opcode".to_vec());
}

#[test]
fn full_conversation_through_session_steps() {
    let mut h = fresh_handler();
    let requests = vec![
        Message::new_request(
            1,
            OpCode::Store,
            bincode::serialize(&("k".to_string(), b"v".to_vec())).unwrap(),
        ),
        Message::new_request(2, OpCode::Retrieve, bincode::serialize("k").unwrap()),
        Message::new_request(3, OpCode::Delete, bincode::serialize("k").unwrap()),
        Message::new_request(4, OpCode::Retrieve, bincode::serialize("k").unwrap()),
    ];
    let mut replies = Vec::new();
    for req in requests {
        let step = session_step(&mut h, SessionEvent::Frame(req));
        assert_eq!(step.end, None);
        replies.push(step.reply.unwrap());
    }
    assert_eq!(replies[0].payload, b"OK".to_vec());
    assert_eq!(replies[1].payload, b"v".to_vec());
    assert_eq!(replies[2].payload, b"OK".to_vec());
    assert!(replies[3].is_error());
    assert_eq!(replies[3].payload, b"Key not found".to_vec());
    let ids: Vec<u32> = replies.iter().map(|r| r.request_id).collect();
    assert_eq!(ids, vec![1, 2, 3, 4]);
}
