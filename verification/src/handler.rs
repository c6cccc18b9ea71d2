//! Protocol dispatcher: maps a decoded request to a store operation and
//! builds the reply frame.
//!
//! The dispatcher never fails past its boundary: every failure — wrong
//! message kind, malformed payload, capacity rejection, absent key — becomes
//! an `Error`-kind reply carrying a describing text, echoing the request id.

use vstd::prelude::*;
use vstd::string::StrSliceExecFns;
use vstd::utf8::encode_utf8;
use vstd::utf8::is_ascii_chars;
use vstd::utf8::is_ascii_chars_encode_utf8;

use crate::message::Message;
use crate::message::MessageModel;
use crate::message::OpCode;
use crate::message::MESSAGE_TYPE_ERROR;
use crate::message::MESSAGE_TYPE_REQUEST;
use crate::message::MESSAGE_TYPE_RESPONSE;
use crate::storage::key_views;
use crate::storage::KeyValueStore;
use crate::storage::StoreView;

verus! {

/// Reply payload for a ping.
pub open spec fn pong_payload() -> Seq<u8> {
    encode_utf8("PONG"@)
}

/// Reply payload for a successful store or delete.
pub open spec fn ok_payload() -> Seq<u8> {
    encode_utf8("OK"@)
}

/// Sentinel payload for a retrieve of an absent key. Callers pattern-match
/// this exact text to tell "absent" from genuine errors, so it must be
/// preserved verbatim.
pub open spec fn not_found_payload() -> Seq<u8> {
    encode_utf8("Key not found"@)
}

/// Error payload for a frame that is not a request.
pub open spec fn invalid_type_payload() -> Seq<u8> {
    encode_utf8("Invalid message type"@)
}

/// Error payload for a store rejected by the capacity ceiling.
pub open spec fn capacity_payload() -> Seq<u8> {
    encode_utf8("Storage capacity exceeded"@)
}

/// Error payload for a request payload that does not decode to the shape the
/// operation expects.
pub open spec fn malformed_payload() -> Seq<u8> {
    encode_utf8("Malformed request payload"@)
}

/// Error payload for a value too large to ever travel back in one frame.
pub open spec fn value_too_large_payload() -> Seq<u8> {
    encode_utf8("Value too large"@)
}

/// Error payload for a key list that could not be encoded.
pub open spec fn list_failed_payload() -> Seq<u8> {
    encode_utf8("Failed to encode key list"@)
}

/// The UTF-8 bytes of an ASCII text, fit for a reply payload.
fn ascii_payload(text: &str) -> (r: Vec<u8>)
    requires
        is_ascii_chars(text@),
        text@.len() <= u32::MAX,
    ensures
        r@ == encode_utf8(text@),
        r@.len() == text@.len(),
{
    proof {
        is_ascii_chars_encode_utf8(text@);
    }
    text.as_bytes_vec()
}

/// Model of a `Response` reply carrying the given payload.
pub open spec fn response_model(request_id: u32, payload: Seq<u8>) -> MessageModel {
    MessageModel { message_type: MESSAGE_TYPE_RESPONSE, request_id, op_code: OpCode::Ping, payload }
}

/// Model of an `Error` reply carrying the given payload.
pub open spec fn error_model(request_id: u32, payload: Seq<u8>) -> MessageModel {
    MessageModel { message_type: MESSAGE_TYPE_ERROR, request_id, op_code: OpCode::Ping, payload }
}

/// Builds an `Error` reply from an ASCII text.
fn error_reply(request_id: u32, text: &str) -> (r: Message)
    requires
        is_ascii_chars(text@),
        text@.len() <= u32::MAX,
    ensures
        r.wf(),
        r@ == error_model(request_id, encode_utf8(text@)),
{
    proof {
        is_ascii_chars_encode_utf8(text@);
    }
    Message::new_error(request_id, text.to_owned())
}

/// Builds a `Response` reply from an ASCII text.
fn text_response(request_id: u32, text: &str) -> (r: Message)
    requires
        is_ascii_chars(text@),
        text@.len() <= u32::MAX,
    ensures
        r.wf(),
        r@ == response_model(request_id, encode_utf8(text@)),
{
    let payload = ascii_payload(text);
    Message::new_response(request_id, payload)
}

/// What a store request payload parses to: a key and a value, if the bytes
/// are a well-formed encoding of that pair.
pub uninterp spec fn parsed_pair(b: Seq<u8>) -> Option<(Seq<char>, Seq<u8>)>;

/// What a single-key request payload parses to.
pub uninterp spec fn parsed_key(b: Seq<u8>) -> Option<Seq<char>>;

/// What a key-list reply payload parses to.
pub uninterp spec fn parsed_keys(b: Seq<u8>) -> Option<Seq<Seq<char>>>;

/// Relies on bincode::deserialize for a string-and-bytes pair: the outcome is
/// a function of the input bytes alone; the error case only says the bytes
/// are not a well-formed pair encoding.
#[verifier::external_body]
fn decode_pair_payload(payload: &Vec<u8>) -> (r: Option<(String, Vec<u8>)>)
    ensures
        match r {
            Some(p) => parsed_pair(payload@) == Some((p.0@, p.1@)),
            None => parsed_pair(payload@) is None,
        },
{
    bincode::deserialize::<(String, Vec<u8>)>(payload.as_slice()).ok()
}

/// The bytes a key-and-value pair serializes to: a function of the pair
/// alone.
pub uninterp spec fn pair_payload(k: Seq<char>, v: Seq<u8>) -> Seq<u8>;

/// The bytes a single key serializes to.
pub uninterp spec fn key_payload(k: Seq<char>) -> Seq<u8>;

/// The bytes a key list serializes to.
pub uninterp spec fn keys_payload(ks: Seq<Seq<char>>) -> Seq<u8>;

/// Relies on bincode::serialize for a string-and-bytes pair: with these
/// options it cannot fail on such a value (the size limit is infinite and
/// the writer is a byte vector), and bincode deserialization inverts it, so
/// the produced payload parses back to the same pair.
#[verifier::external_body]
pub(crate) fn encode_pair_payload(key: &String, value: &Vec<u8>) -> (r: Vec<u8>)
    ensures
        r@ == pair_payload(key@, value@),
        parsed_pair(r@) == Some((key@, value@)),
{
    bincode::serialize(&(key, value)).expect("serializing a pair of plain values cannot fail")
}

/// Relies on bincode::deserialize for a single string: the outcome is a
/// function of the input bytes alone.
#[verifier::external_body]
fn decode_key_payload(payload: &Vec<u8>) -> (r: Option<String>)
    ensures
        match r {
            Some(k) => parsed_key(payload@) == Some(k@),
            None => parsed_key(payload@) is None,
        },
{
    bincode::deserialize::<String>(payload.as_slice()).ok()
}

/// Relies on bincode::serialize for a single string: with these options it
/// cannot fail on a string, and bincode deserialization inverts it.
#[verifier::external_body]
pub(crate) fn encode_key_payload(key: &String) -> (r: Vec<u8>)
    ensures
        r@ == key_payload(key@),
        parsed_key(r@) == Some(key@),
{
    bincode::serialize(key).expect("serializing a string cannot fail")
}

/// Relies on bincode::serialize for a string list: with these options it
/// cannot fail on a list of strings, and bincode deserialization inverts it,
/// so the produced payload parses back to the same keys in the same order.
#[verifier::external_body]
fn encode_keys_payload(keys: &Vec<String>) -> (r: Vec<u8>)
    ensures
        r@ == keys_payload(key_views(keys@)),
        parsed_keys(r@) == Some(key_views(keys@)),
{
    bincode::serialize(keys).expect("serializing a list of strings cannot fail")
}

/// Relies on bincode::deserialize for a string list: the outcome is a
/// function of the input bytes alone; the error case only says the bytes are
/// not a well-formed list encoding.
#[verifier::external_body]
pub(crate) fn decode_keys_payload(payload: &Vec<u8>) -> (r: Option<Vec<String>>)
    ensures
        match r {
            Some(ks) => parsed_keys(payload@) == Some(key_views(ks@)),
            None => parsed_keys(payload@) is None,
        },
{
    bincode::deserialize::<Vec<String>>(payload.as_slice()).ok()
}

/// What handling a store request does to the store and what it replies.
pub open spec fn store_post(
    pre: StoreView,
    request_id: u32,
    k: Seq<char>,
    v: Seq<u8>,
    post: StoreView,
    r: MessageModel,
) -> bool {
    post.max_size == pre.max_size && if v.len() > u32::MAX {
        post == pre && r == error_model(request_id, value_too_large_payload())
    } else if pre.accepts(k, v) {
        post.map == pre.map.insert(k, v) && post.size as int == pre.size + v.len()
            - pre.prior_len(k) && r == response_model(request_id, ok_payload())
    } else {
        post == pre && r == error_model(request_id, capacity_payload())
    }
}

/// What handling a retrieve request replies; the store is untouched.
pub open spec fn retrieve_post(pre: StoreView, request_id: u32, k: Seq<char>, r: MessageModel) -> bool {
    if pre.map.contains_key(k) {
        if pre.map[k].len() <= u32::MAX {
            r == response_model(request_id, pre.map[k])
        } else {
            r == error_model(request_id, value_too_large_payload())
        }
    } else {
        r == error_model(request_id, not_found_payload())
    }
}

/// What handling a delete request does to the store; deleting an absent key
/// still succeeds.
pub open spec fn delete_post(pre: StoreView, k: Seq<char>, post: StoreView) -> bool {
    post.max_size == pre.max_size && if pre.map.contains_key(k) {
        post.map == pre.map.remove(k) && post.size as int == pre.size as int - pre.map[k].len()
    } else {
        post == pre
    }
}

/// What handling a list request replies: a response whose payload is the
/// serialized form of exactly the keys present, each once, in some order.
/// The error reply is allowed only when the listing that was drawn encodes
/// past the 4-byte length field, so success is owed whenever the encoded
/// list fits one frame.
pub open spec fn list_post(pre: StoreView, request_id: u32, r: MessageModel) -> bool {
    (r.message_type == MESSAGE_TYPE_RESPONSE && r.request_id == request_id && r.op_code
        == OpCode::Ping && (parsed_keys(r.payload) matches Some(ks) && r.payload == keys_payload(
        ks,
    ) && ks.to_set() == pre.map.dom() && ks.no_duplicates())) || (r == error_model(
        request_id,
        list_failed_payload(),
    ) && (exists|ks: Seq<Seq<char>>|
        #![trigger keys_payload(ks)]
        ks.to_set() == pre.map.dom() && ks.no_duplicates() && keys_payload(ks).len() > u32::MAX))
}

/// The dispatcher's whole contract: how the reply and the store state after
/// the call follow from the request and the store state before it.
pub open spec fn dispatch_post(
    pre: StoreView,
    msg: MessageModel,
    post: StoreView,
    r: MessageModel,
) -> bool {
    if msg.message_type != MESSAGE_TYPE_REQUEST {
        post == pre && r == error_model(msg.request_id, invalid_type_payload())
    } else {
        match msg.op_code {
            OpCode::Ping => post == pre && r == response_model(msg.request_id, pong_payload()),
            OpCode::Store => match parsed_pair(msg.payload) {
                Some(kv) => store_post(pre, msg.request_id, kv.0, kv.1, post, r),
                None => post == pre && r == error_model(msg.request_id, malformed_payload()),
            },
            OpCode::Retrieve => post == pre && match parsed_key(msg.payload) {
                Some(k) => retrieve_post(pre, msg.request_id, k, r),
                None => r == error_model(msg.request_id, malformed_payload()),
            },
            OpCode::Delete => match parsed_key(msg.payload) {
                Some(k) => delete_post(pre, k, post) && r == response_model(
                    msg.request_id,
                    ok_payload(),
                ),
                None => post == pre && r == error_model(msg.request_id, malformed_payload()),
            },
            OpCode::List => post == pre && list_post(pre, msg.request_id, r),
        }
    }
}

/// Turns decoded requests into store operations and reply frames.
pub struct ProtocolHandler {
    store: KeyValueStore,
}

impl View for ProtocolHandler {
    type V = StoreView;

    closed spec fn view(&self) -> StoreView {
        self.store@
    }
}

impl ProtocolHandler {
    /// The handler is well-formed when its store is.
    pub open spec fn wf(&self) -> bool {
        self@.wf()
    }

    /// Wraps a store for dispatching.
    pub fn new(store: KeyValueStore) -> (r: ProtocolHandler)
        ensures
            r@ == store@,
    {
        ProtocolHandler { store }
    }

    /// A read-only view of the wrapped store.
    pub fn store_ref(&self) -> (r: &KeyValueStore)
        ensures
            r@ == self@,
    {
        &self.store
    }

    /// Dispatches one message: executes the requested operation against the
    /// store and builds the reply. Never fails past its boundary — every
    /// failure becomes an `Error`-kind reply echoing the request id.
    pub fn handle_message(&mut self, message: Message) -> (r: Message)
        requires
            old(self).wf(),
        ensures
            final(self).wf(),
            r.wf(),
            dispatch_post(old(self)@, message@, final(self)@, r@),
    {
        if !message.is_request() {
            return self.invalid_type_reply(message.request_id);
        }
        match message.op_code {
            OpCode::Ping => self.handle_ping(message),
            OpCode::Store => self.handle_store(message),
            OpCode::Retrieve => self.handle_retrieve(message),
            OpCode::Delete => self.handle_delete(message),
            OpCode::List => self.handle_list(message),
        }
    }

    /// The reply to a frame that is not a request.
    fn invalid_type_reply(&self, request_id: u32) -> (r: Message)
        ensures
            r.wf(),
            r@ == error_model(request_id, invalid_type_payload()),
    {
        proof {
            reveal_strlit("Invalid message type");
            assert(is_ascii_chars("Invalid message type"@));
        }
        error_reply(request_id, "Invalid message type")
    }

    /// The reply to a malformed request payload.
    fn malformed_reply(&self, request_id: u32) -> (r: Message)
        ensures
            r.wf(),
            r@ == error_model(request_id, malformed_payload()),
    {
        proof {
            reveal_strlit("Malformed request payload");
            assert(is_ascii_chars("Malformed request payload"@));
        }
        error_reply(request_id, "Malformed request payload")
    }

    fn handle_ping(&self, message: Message) -> (r: Message)
        ensures
            r.wf(),
            r@ == response_model(message.request_id, pong_payload()),
    {
        proof {
            reveal_strlit("PONG");
            assert(is_ascii_chars("PONG"@));
        }
        text_response(message.request_id, "PONG")
    }

    fn handle_store(&mut self, message: Message) -> (r: Message)
        requires
            old(self).wf(),
        ensures
            final(self).wf(),
            r.wf(),
            final(self)@.max_size == old(self)@.max_size,
            match parsed_pair(message@.payload) {
                Some(kv) => store_post(old(self)@, message.request_id, kv.0, kv.1, final(self)@, r@),
                None => final(self)@ == old(self)@ && r@ == error_model(
                    message.request_id,
                    malformed_payload(),
                ),
            },
    {
        let (key, value) = match decode_pair_payload(&message.payload) {
            Some(kv) => kv,
            None => {
                return self.malformed_reply(message.request_id);
            },
        };
        if value.len() > u32::MAX as usize {
            proof {
                reveal_strlit("Value too large");
                assert(is_ascii_chars("Value too large"@));
            }
            return error_reply(message.request_id, "Value too large");
        }
        match self.store.set(key.as_str(), value) {
            Ok(()) => {
                proof {
                    reveal_strlit("OK");
                    assert(is_ascii_chars("OK"@));
                }
                text_response(message.request_id, "OK")
            },
            Err(_) => {
                proof {
                    reveal_strlit("Storage capacity exceeded");
                    assert(is_ascii_chars("Storage capacity exceeded"@));
                }
                error_reply(message.request_id, "Storage capacity exceeded")
            },
        }
    }

    fn handle_retrieve(&self, message: Message) -> (r: Message)
        requires
            self.wf(),
        ensures
            r.wf(),
            match parsed_key(message@.payload) {
                Some(k) => retrieve_post(self@, message.request_id, k, r@),
                None => r@ == error_model(message.request_id, malformed_payload()),
            },
    {
        let key = match decode_key_payload(&message.payload) {
            Some(k) => k,
            None => {
                return self.malformed_reply(message.request_id);
            },
        };
        match self.store.get(key.as_str()) {
            Some(value) => {
                if value.len() > u32::MAX as usize {
                    proof {
                        reveal_strlit("Value too large");
                        assert(is_ascii_chars("Value too large"@));
                    }
                    error_reply(message.request_id, "Value too large")
                } else {
                    Message::new_response(message.request_id, value)
                }
            },
            None => {
                proof {
                    reveal_strlit("Key not found");
                    assert(is_ascii_chars("Key not found"@));
                }
                error_reply(message.request_id, "Key not found")
            },
        }
    }

    fn handle_delete(&mut self, message: Message) -> (r: Message)
        requires
            old(self).wf(),
        ensures
            final(self).wf(),
            r.wf(),
            match parsed_key(message@.payload) {
                Some(k) => delete_post(old(self)@, k, final(self)@) && r@ == response_model(
                    message.request_id,
                    ok_payload(),
                ),
                None => final(self)@ == old(self)@ && r@ == error_model(
                    message.request_id,
                    malformed_payload(),
                ),
            },
    {
        let key = match decode_key_payload(&message.payload) {
            Some(k) => k,
            None => {
                return self.malformed_reply(message.request_id);
            },
        };
        self.store.delete(key.as_str());
        proof {
            reveal_strlit("OK");
            assert(is_ascii_chars("OK"@));
        }
        text_response(message.request_id, "OK")
    }

    fn handle_list(&self, message: Message) -> (r: Message)
        requires
            self.wf(),
        ensures
            r.wf(),
            list_post(self@, message.request_id, r@),
    {
        let keys = self.store.list_keys();
        let payload = encode_keys_payload(&keys);
        if payload.len() <= u32::MAX as usize {
            return Message::new_response(message.request_id, payload);
        }
        proof {
            reveal_strlit("Failed to encode key list");
            assert(is_ascii_chars("Failed to encode key list"@));
            assert(keys_payload(key_views(keys@)).len() > u32::MAX);
        }
        error_reply(message.request_id, "Failed to encode key list")
    }
}

/// Ping law: any request whose op is `Ping` is answered by a `Response`
/// carrying `PONG` under the same request id, whatever the payload holds,
/// and the store is untouched.
pub proof fn lemma_ping_reply(pre: StoreView, msg: MessageModel, post: StoreView, r: MessageModel)
    requires
        msg.message_type == MESSAGE_TYPE_REQUEST,
        msg.op_code == OpCode::Ping,
        dispatch_post(pre, msg, post, r),
    ensures
        post == pre,
        r == response_model(msg.request_id, pong_payload()),
{
}

/// Not-found law: a retrieve request leaves the store untouched, and when
/// its key is absent the reply is an `Error` frame whose payload is exactly
/// the sentinel text.
pub proof fn lemma_not_found_reply(
    pre: StoreView,
    msg: MessageModel,
    post: StoreView,
    r: MessageModel,
)
    requires
        msg.message_type == MESSAGE_TYPE_REQUEST,
        msg.op_code == OpCode::Retrieve,
        dispatch_post(pre, msg, post, r),
    ensures
        post == pre,
        match parsed_key(msg.payload) {
            Some(k) => !pre.map.contains_key(k) ==> r == error_model(
                msg.request_id,
                not_found_payload(),
            ),
            None => r == error_model(msg.request_id, malformed_payload()),
        },
{
}

} // verus!
