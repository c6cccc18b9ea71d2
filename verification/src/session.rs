//! Per-connection session step: the decision core of the read-dispatch-write
//! loop.
//!
//! The loop around a live socket reads bytes, decodes them, and feeds the
//! outcome here as an event; this function decides what to send back and
//! whether the session ends, and is the same for the event-driven and the
//! thread-per-connection embedding.

use vstd::prelude::*;
use vstd::utf8::encode_utf8;
use vstd::utf8::is_ascii_chars;
use vstd::utf8::is_ascii_chars_encode_utf8;

use crate::handler::dispatch_post;
use crate::handler::error_model;
use crate::handler::ProtocolHandler;
use crate::message::DecodeError;
use crate::message::Message;

verus! {

/// What the transport layer observed while waiting for a frame.
pub enum SessionEvent {
    /// A full frame was decoded.
    Frame(Message),
    /// Bytes arrived but did not decode to a frame.
    Malformed(DecodeError),
    /// The peer closed the stream in an orderly way (zero-length read).
    PeerClosed,
    /// The stream failed: reset, broken pipe, or a timeout elapsed.
    TransportFailed,
}

/// Why a session ended.
#[derive(Clone, Copy, Debug, PartialEq, Eq, Structural)]
pub enum SessionEnd {
    /// Orderly close by the peer; nothing more to send.
    ClosedByPeer,
    /// The transport failed; no reply is attempted.
    TransportFailure,
    /// The peer broke the protocol; one error frame is sent, then the
    /// session ends regardless of whether that send succeeds.
    ProtocolFault,
}

/// What one step of the session loop decided: the frame to send, if any, and
/// the terminal state, if the session is over.
pub struct SessionStep {
    pub reply: Option<Message>,
    pub end: Option<SessionEnd>,
}

/// Error payload sent, under request id zero, when a frame's op byte is
/// outside the closed operation set.
pub open spec fn protocol_fault_payload() -> Seq<u8> {
    encode_utf8("Invalid opcode"@)
}

/// Advances one session by one observed event.
///
/// A decoded frame is dispatched and answered; the dispatcher cannot end the
/// session. A truncated read and a failed transport end the session without
/// a reply; an orderly peer close ends it cleanly; a protocol fault is
/// answered with a single error frame under request id zero, then ends the
/// session.
pub fn session_step(handler: &mut ProtocolHandler, event: SessionEvent) -> (r: SessionStep)
    requires
        old(handler).wf(),
    ensures
        final(handler).wf(),
        match event {
            SessionEvent::Frame(m) => {
                &&& r.end is None
                &&& r.reply matches Some(rep) && rep.wf() && dispatch_post(
                    old(handler)@,
                    m@,
                    final(handler)@,
                    rep@,
                )
            },
            SessionEvent::Malformed(err) => final(handler)@ == old(handler)@ && match err {
                DecodeError::Truncated => r.reply is None && r.end == Some(
                    SessionEnd::TransportFailure,
                ),
                DecodeError::InvalidOpCode(_) => {
                    &&& r.end == Some(SessionEnd::ProtocolFault)
                    &&& r.reply matches Some(rep) && rep.wf() && rep@ == error_model(
                        0,
                        protocol_fault_payload(),
                    )
                },
            },
            SessionEvent::PeerClosed => final(handler)@ == old(handler)@ && r.reply is None
                && r.end == Some(SessionEnd::ClosedByPeer),
            SessionEvent::TransportFailed => final(handler)@ == old(handler)@ && r.reply is None
                && r.end == Some(SessionEnd::TransportFailure),
        },
{
    match event {
        SessionEvent::Frame(m) => {
            let reply = handler.handle_message(m);
            SessionStep { reply: Some(reply), end: None }
        },
        SessionEvent::Malformed(DecodeError::Truncated) => SessionStep {
            reply: None,
            end: Some(SessionEnd::TransportFailure),
        },
        SessionEvent::Malformed(DecodeError::InvalidOpCode(_)) => {
            proof {
                reveal_strlit("Invalid opcode");
                assert(is_ascii_chars("Invalid opcode"@));
                is_ascii_chars_encode_utf8("Invalid opcode"@);
            }
            let reply = Message::new_error(0, "Invalid opcode".to_owned());
            SessionStep { reply: Some(reply), end: Some(SessionEnd::ProtocolFault) }
        },
        SessionEvent::PeerClosed => SessionStep { reply: None, end: Some(SessionEnd::ClosedByPeer) },
        SessionEvent::TransportFailed => SessionStep {
            reply: None,
            end: Some(SessionEnd::TransportFailure),
        },
    }
}

} // verus!
