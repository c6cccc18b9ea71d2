//! Client-side computation: building request frames and reading replies.
//!
//! The socket a client talks through lives outside; these functions do the
//! part that can be checked — shaping a request payload and deciding what a
//! reply means, including the verbatim match on the not-found sentinel.

use vstd::prelude::*;
use vstd::string::StrSliceExecFns;
use vstd::wrapping::u32_specs;
use vstd::utf8::is_ascii_chars;
use vstd::utf8::is_ascii_chars_encode_utf8;

use crate::handler::decode_keys_payload;
use crate::handler::encode_key_payload;
use crate::handler::encode_pair_payload;
use crate::handler::key_payload;
use crate::handler::not_found_payload;
use crate::handler::pair_payload;
use crate::handler::parsed_key;
use crate::handler::parsed_keys;
use crate::handler::parsed_pair;
use crate::storage::key_views;
use crate::message::Message;
use crate::message::MessageModel;
use crate::message::OpCode;
use crate::message::MESSAGE_TYPE_ERROR;
use crate::message::MESSAGE_TYPE_REQUEST;

verus! {

/// Builds a ping request; the payload is empty and ignored by the server.
pub fn build_ping_request(request_id: u32) -> (r: Message)
    ensures
        r.wf(),
        r@ == (MessageModel {
            message_type: MESSAGE_TYPE_REQUEST,
            request_id,
            op_code: OpCode::Ping,
            payload: Seq::empty(),
        }),
{
    Message::new_request(request_id, OpCode::Ping, Vec::new())
}

/// Builds a list request; the payload is empty.
pub fn build_list_request(request_id: u32) -> (r: Message)
    ensures
        r.wf(),
        r@ == (MessageModel {
            message_type: MESSAGE_TYPE_REQUEST,
            request_id,
            op_code: OpCode::List,
            payload: Seq::empty(),
        }),
{
    Message::new_request(request_id, OpCode::List, Vec::new())
}

/// Builds a store request whose payload encodes the key and the value; hands
/// back nothing only when that encoding overruns the 4-byte length field.
pub fn build_store_request(request_id: u32, key: &String, value: &Vec<u8>) -> (r: Option<Message>)
    ensures
        r matches Some(m) ==> m.wf() && m.message_type == MESSAGE_TYPE_REQUEST && m.request_id
            == request_id && m.op_code == OpCode::Store && m@.payload == pair_payload(key@, value@)
            && parsed_pair(m@.payload) == Some((key@, value@)),
        r is None ==> pair_payload(key@, value@).len() > u32::MAX,
{
    let payload = encode_pair_payload(key, value);
    if payload.len() > u32::MAX as usize {
        return None;
    }
    Some(Message::new_request(request_id, OpCode::Store, payload))
}

/// Builds a retrieve request whose payload encodes the key; hands back
/// nothing only when that encoding overruns the 4-byte length field.
pub fn build_retrieve_request(request_id: u32, key: &String) -> (r: Option<Message>)
    ensures
        r matches Some(m) ==> m.wf() && m.message_type == MESSAGE_TYPE_REQUEST && m.request_id
            == request_id && m.op_code == OpCode::Retrieve && m@.payload == key_payload(key@)
            && parsed_key(m@.payload) == Some(key@),
        r is None ==> key_payload(key@).len() > u32::MAX,
{
    let payload = encode_key_payload(key);
    if payload.len() > u32::MAX as usize {
        return None;
    }
    Some(Message::new_request(request_id, OpCode::Retrieve, payload))
}

/// Builds a delete request whose payload encodes the key; hands back
/// nothing only when that encoding overruns the 4-byte length field.
pub fn build_delete_request(request_id: u32, key: &String) -> (r: Option<Message>)
    ensures
        r matches Some(m) ==> m.wf() && m.message_type == MESSAGE_TYPE_REQUEST && m.request_id
            == request_id && m.op_code == OpCode::Delete && m@.payload == key_payload(key@)
            && parsed_key(m@.payload) == Some(key@),
        r is None ==> key_payload(key@).len() > u32::MAX,
{
    let payload = encode_key_payload(key);
    if payload.len() > u32::MAX as usize {
        return None;
    }
    Some(Message::new_request(request_id, OpCode::Delete, payload))
}

/// Whether two byte buffers hold the same bytes.
fn bytes_eq(a: &Vec<u8>, b: &Vec<u8>) -> (r: bool)
    ensures
        r == (a@ == b@),
{
    if a.len() != b.len() {
        return false;
    }
    let mut i: usize = 0;
    while i < a.len()
        invariant
            i <= a@.len(),
            a@.len() == b@.len(),
            forall|j: int| 0 <= j < i ==> a@[j] == b@[j],
        decreases a@.len() - i,
    {
        if a[i] != b[i] {
            return false;
        }
        i = i + 1;
    }
    proof {
        assert(a@ =~= b@);
    }
    true
}

/// What a reply to a retrieve request means to the caller.
pub enum RetrieveOutcome {
    /// The key was present; the raw value bytes.
    Found(Vec<u8>),
    /// The server answered with exactly the not-found sentinel.
    Missing,
    /// Any other error reply; the raw error payload.
    Failed(Vec<u8>),
}

/// Reads a retrieve reply: an error frame carrying exactly the sentinel text
/// means the key is absent; any other error is a failure; anything else
/// carries the value.
pub fn interpret_retrieve_reply(reply: Message) -> (r: RetrieveOutcome)
    ensures
        match r {
            RetrieveOutcome::Found(v) => reply.message_type != MESSAGE_TYPE_ERROR && v@
                == reply@.payload,
            RetrieveOutcome::Missing => reply.message_type == MESSAGE_TYPE_ERROR && reply@.payload
                == not_found_payload(),
            RetrieveOutcome::Failed(e) => reply.message_type == MESSAGE_TYPE_ERROR && reply@.payload
                != not_found_payload() && e@ == reply@.payload,
        },
{
    if !reply.is_error() {
        return RetrieveOutcome::Found(reply.payload);
    }
    proof {
        reveal_strlit("Key not found");
        assert(is_ascii_chars("Key not found"@));
        is_ascii_chars_encode_utf8("Key not found"@);
    }
    let sentinel = "Key not found".as_bytes_vec();
    if bytes_eq(&reply.payload, &sentinel) {
        RetrieveOutcome::Missing
    } else {
        RetrieveOutcome::Failed(reply.payload)
    }
}

/// Reads a store or delete reply: an error frame fails with its payload,
/// anything else succeeds.
pub fn interpret_simple_reply(reply: Message) -> (r: Result<(), Vec<u8>>)
    ensures
        match r {
            Ok(()) => reply.message_type != MESSAGE_TYPE_ERROR,
            Err(e) => reply.message_type == MESSAGE_TYPE_ERROR && e@ == reply@.payload,
        },
{
    if reply.is_error() {
        Err(reply.payload)
    } else {
        Ok(())
    }
}

/// What a reply to a list request means to the caller.
pub enum ListOutcome {
    /// The keys the reply payload encodes.
    Keys(Vec<String>),
    /// An error reply; the raw error payload.
    Failed(Vec<u8>),
    /// A non-error reply whose payload is not a key-list encoding.
    Malformed,
}

/// Reads a list reply: an error frame fails with its payload; any other
/// frame must carry a key-list encoding, decoded here.
pub fn interpret_list_reply(reply: Message) -> (r: ListOutcome)
    ensures
        match r {
            ListOutcome::Keys(ks) => reply.message_type != MESSAGE_TYPE_ERROR && parsed_keys(
                reply@.payload,
            ) == Some(key_views(ks@)),
            ListOutcome::Failed(e) => reply.message_type == MESSAGE_TYPE_ERROR && e@
                == reply@.payload,
            ListOutcome::Malformed => reply.message_type != MESSAGE_TYPE_ERROR && parsed_keys(
                reply@.payload,
            ) is None,
        },
{
    if reply.is_error() {
        return ListOutcome::Failed(reply.payload);
    }
    match decode_keys_payload(&reply.payload) {
        Some(keys) => ListOutcome::Keys(keys),
        None => ListOutcome::Malformed,
    }
}

/// Hands out request ids in order, starting at one and wrapping around, as a
/// caller-assigned id source for one connection.
pub struct RequestIdCounter {
    next: u32,
}

impl RequestIdCounter {
    /// The id the next request will carry.
    pub closed spec fn upcoming(&self) -> u32 {
        self.next
    }

    /// The first request gets id one.
    pub fn new() -> (r: RequestIdCounter)
        ensures
            r.upcoming() == 1,
    {
        RequestIdCounter { next: 1 }
    }

    /// Takes the next id and steps the counter, wrapping around at the top.
    pub fn next_request_id(&mut self) -> (r: u32)
        ensures
            r == old(self).upcoming(),
            final(self).upcoming() == u32_specs::wrapping_add(old(self).upcoming(), 1),
    {
        let id = self.next;
        self.next = self.next.wrapping_add(1);
        id
    }
}

} // verus!
