//! Wire codec for a single protocol frame.
//!
//! A frame is laid out as
//! `[1 byte kind][4 byte request id][1 byte op][4 byte payload length][payload]`
//! with all multi-byte integers big-endian. The op byte is present for every
//! kind to keep the header fixed-width; it carries meaning only on requests.

use vstd::prelude::*;
use vstd::string::StrSliceExecFns;
use vstd::utf8::encode_utf8;

verus! {

/// Wire value of the `Request` message kind.
pub const MESSAGE_TYPE_REQUEST: u8 = 1;

/// Wire value of the `Response` message kind.
pub const MESSAGE_TYPE_RESPONSE: u8 = 2;

/// Wire value of the `Error` message kind.
pub const MESSAGE_TYPE_ERROR: u8 = 3;

/// Bytes of header before the payload: kind, request id, op, payload length.
pub const FRAME_HEADER_LEN: usize = 10;

/// Operation requested by a `Request` frame; any other op byte on a frame is
/// a protocol violation.
#[derive(Clone, Copy, Debug, PartialEq, Eq, Structural)]
pub enum OpCode {
    Ping,
    Store,
    Retrieve,
    Delete,
    List,
}

/// The byte that carries an operation on the wire.
pub open spec fn op_code_byte(op: OpCode) -> u8 {
    match op {
        OpCode::Ping => 1,
        OpCode::Store => 2,
        OpCode::Retrieve => 3,
        OpCode::Delete => 4,
        OpCode::List => 5,
    }
}

/// The operation an op byte stands for, if any.
pub open spec fn spec_op_code_from_byte(b: u8) -> Option<OpCode> {
    if b == 1 {
        Some(OpCode::Ping)
    } else if b == 2 {
        Some(OpCode::Store)
    } else if b == 3 {
        Some(OpCode::Retrieve)
    } else if b == 4 {
        Some(OpCode::Delete)
    } else if b == 5 {
        Some(OpCode::List)
    } else {
        None
    }
}

impl OpCode {
    /// The byte written for this operation.
    pub fn to_byte(self) -> (b: u8)
        ensures
            b == op_code_byte(self),
    {
        match self {
            OpCode::Ping => 1,
            OpCode::Store => 2,
            OpCode::Retrieve => 3,
            OpCode::Delete => 4,
            OpCode::List => 5,
        }
    }

    /// The operation a byte read from the wire stands for, if any.
    pub fn from_byte(b: u8) -> (r: Option<OpCode>)
        ensures
            r == spec_op_code_from_byte(b),
    {
        if b == 1 {
            Some(OpCode::Ping)
        } else if b == 2 {
            Some(OpCode::Store)
        } else if b == 3 {
            Some(OpCode::Retrieve)
        } else if b == 4 {
            Some(OpCode::Delete)
        } else if b == 5 {
            Some(OpCode::List)
        } else {
            None
        }
    }
}

/// Why a byte sequence failed to decode into a frame.
#[derive(Clone, Copy, Debug, PartialEq, Eq, Structural)]
pub enum DecodeError {
    /// Fewer bytes than the header, or than the declared payload length,
    /// were available. On a live stream this signals connection termination,
    /// not a protocol fault.
    Truncated,
    /// The op byte is outside the closed operation set.
    InvalidOpCode(u8),
}

/// Mathematical model of a frame: the payload length field is implied by the
/// payload itself.
pub struct MessageModel {
    pub message_type: u8,
    pub request_id: u32,
    pub op_code: OpCode,
    pub payload: Seq<u8>,
}

impl MessageModel {
    /// A model that some well-formed frame can carry: the payload length must
    /// fit the four-byte length field.
    pub open spec fn wf(self) -> bool {
        self.payload.len() <= u32::MAX
    }
}

/// The unit of wire exchange.
#[derive(Debug)]
pub struct Message {
    pub message_type: u8,
    pub request_id: u32,
    pub op_code: OpCode,
    pub payload_len: u32,
    pub payload: Vec<u8>,
}

impl View for Message {
    type V = MessageModel;

    open spec fn view(&self) -> MessageModel {
        MessageModel {
            message_type: self.message_type,
            request_id: self.request_id,
            op_code: self.op_code,
            payload: self.payload@,
        }
    }
}

/// The four big-endian bytes of a 32-bit integer, most significant first.
pub open spec fn spec_u32_be(x: u32) -> Seq<u8> {
    seq![(x >> 24) as u8, (x >> 16) as u8, (x >> 8) as u8, x as u8]
}

/// The 32-bit integer carried by four big-endian bytes.
pub open spec fn spec_be_u32(b0: u8, b1: u8, b2: u8, b3: u8) -> u32 {
    ((b0 as u32) << 24) | ((b1 as u32) << 16) | ((b2 as u32) << 8) | (b3 as u32)
}

/// The exact bytes a frame puts on the wire.
pub open spec fn spec_encode(m: MessageModel) -> Seq<u8> {
    seq![
        m.message_type,
        (m.request_id >> 24) as u8,
        (m.request_id >> 16) as u8,
        (m.request_id >> 8) as u8,
        m.request_id as u8,
        op_code_byte(m.op_code),
        ((m.payload.len() as u32) >> 24) as u8,
        ((m.payload.len() as u32) >> 16) as u8,
        ((m.payload.len() as u32) >> 8) as u8,
        (m.payload.len() as u32) as u8,
    ] + m.payload
}

/// What decoding a byte sequence yields: the frame parsed from its front, or
/// the failure. Header and payload bounds are checked before the op byte, as
/// a reader consuming the stream would find them.
pub open spec fn spec_decode(b: Seq<u8>) -> Result<MessageModel, DecodeError> {
    if b.len() < 10 {
        Err(DecodeError::Truncated)
    } else {
        let plen = spec_be_u32(b[6], b[7], b[8], b[9]) as int;
        if b.len() < 10 + plen {
            Err(DecodeError::Truncated)
        } else {
            match spec_op_code_from_byte(b[5]) {
                Some(op) => Ok(
                    MessageModel {
                        message_type: b[0],
                        request_id: spec_be_u32(b[1], b[2], b[3], b[4]),
                        op_code: op,
                        payload: b.subrange(10, 10 + plen),
                    },
                ),
                None => Err(DecodeError::InvalidOpCode(b[5])),
            }
        }
    }
}

impl Message {
    /// A frame whose length field agrees with its payload.
    pub open spec fn wf(&self) -> bool {
        self.payload_len == self.payload@.len()
    }

    /// Builds a `Request` frame carrying an operation and its payload.
    pub fn new_request(request_id: u32, op_code: OpCode, payload: Vec<u8>) -> (r: Message)
        requires
            payload@.len() <= u32::MAX,
        ensures
            r.wf(),
            r@ == (MessageModel {
                message_type: MESSAGE_TYPE_REQUEST,
                request_id,
                op_code,
                payload: payload@,
            }),
    {
        let payload_len = payload.len() as u32;
        Message { message_type: MESSAGE_TYPE_REQUEST, request_id, op_code, payload_len, payload }
    }

    /// Builds a `Response` frame; the op field is a fixed placeholder, present
    /// only to keep the header fixed-width.
    pub fn new_response(request_id: u32, payload: Vec<u8>) -> (r: Message)
        requires
            payload@.len() <= u32::MAX,
        ensures
            r.wf(),
            r@ == (MessageModel {
                message_type: MESSAGE_TYPE_RESPONSE,
                request_id,
                op_code: OpCode::Ping,
                payload: payload@,
            }),
    {
        let payload_len = payload.len() as u32;
        Message {
            message_type: MESSAGE_TYPE_RESPONSE,
            request_id,
            op_code: OpCode::Ping,
            payload_len,
            payload,
        }
    }

    /// Builds an `Error` frame whose payload is the UTF-8 text of the message.
    pub fn new_error(request_id: u32, error_message: String) -> (r: Message)
        requires
            encode_utf8(error_message@).len() <= u32::MAX,
        ensures
            r.wf(),
            r@ == (MessageModel {
                message_type: MESSAGE_TYPE_ERROR,
                request_id,
                op_code: OpCode::Ping,
                payload: encode_utf8(error_message@),
            }),
    {
        let payload = error_message.as_str().as_bytes_vec();
        let payload_len = payload.len() as u32;
        Message {
            message_type: MESSAGE_TYPE_ERROR,
            request_id,
            op_code: OpCode::Ping,
            payload_len,
            payload,
        }
    }

    /// Whether this frame is a request.
    pub fn is_request(&self) -> (r: bool)
        ensures
            r == (self.message_type == MESSAGE_TYPE_REQUEST),
    {
        self.message_type == MESSAGE_TYPE_REQUEST
    }

    /// Whether this frame is a response.
    pub fn is_response(&self) -> (r: bool)
        ensures
            r == (self.message_type == MESSAGE_TYPE_RESPONSE),
    {
        self.message_type == MESSAGE_TYPE_RESPONSE
    }

    /// Whether this frame is an error reply.
    pub fn is_error(&self) -> (r: bool)
        ensures
            r == (self.message_type == MESSAGE_TYPE_ERROR),
    {
        self.message_type == MESSAGE_TYPE_ERROR
    }

    /// Serializes this frame: one call emits exactly one complete frame.
    pub fn to_bytes(&self) -> (r: Vec<u8>)
        requires
            self.wf(),
        ensures
            r@ == spec_encode(self@),
    {
        let mut out: Vec<u8> = Vec::new();
        out.push(self.message_type);
        out.push((self.request_id >> 24) as u8);
        out.push((self.request_id >> 16) as u8);
        out.push((self.request_id >> 8) as u8);
        out.push(self.request_id as u8);
        out.push(self.op_code.to_byte());
        out.push((self.payload_len >> 24) as u8);
        out.push((self.payload_len >> 16) as u8);
        out.push((self.payload_len >> 8) as u8);
        out.push(self.payload_len as u8);
        let ghost header = out@;
        let mut i: usize = 0;
        while i < self.payload.len()
            invariant
                i <= self.payload@.len(),
                out@ == header + self.payload@.take(i as int),
            decreases self.payload@.len() - i,
        {
            out.push(self.payload[i]);
            i = i + 1;
        }
        proof {
            assert(self.payload@.take(self.payload@.len() as int) =~= self.payload@);
            assert(out@ =~= spec_encode(self@));
        }
        out
    }

    /// Parses one frame from the front of a byte sequence; trailing bytes are
    /// left for the next frame. A short buffer is reported as `Truncated`,
    /// never a hang or a panic.
    pub fn from_bytes(bytes: &Vec<u8>) -> (r: Result<Message, DecodeError>)
        ensures
            match r {
                Ok(m) => m.wf() && spec_decode(bytes@) == Ok::<MessageModel, DecodeError>(m@),
                Err(e) => spec_decode(bytes@) == Err::<MessageModel, DecodeError>(e),
            },
    {
        if bytes.len() < 10 {
            return Err(DecodeError::Truncated);
        }
        let plen: u32 = ((bytes[6] as u32) << 24) | ((bytes[7] as u32) << 16) | ((bytes[8] as u32)
            << 8) | (bytes[9] as u32);
        if bytes.len() - 10 < plen as usize {
            return Err(DecodeError::Truncated);
        }
        let op = match OpCode::from_byte(bytes[5]) {
            Some(op) => op,
            None => {
                return Err(DecodeError::InvalidOpCode(bytes[5]));
            },
        };
        let request_id: u32 = ((bytes[1] as u32) << 24) | ((bytes[2] as u32) << 16) | ((bytes[3]
            as u32) << 8) | (bytes[4] as u32);
        let mut payload: Vec<u8> = Vec::new();
        let mut i: usize = 0;
        while i < plen as usize
            invariant
                i <= plen,
                bytes@.len() >= 10 + plen,
                10 + plen as int <= usize::MAX as int,
                payload@ == bytes@.subrange(10, 10 + i as int),
            decreases plen as int - i,
        {
            payload.push(bytes[10 + i]);
            proof {
                assert(payload@ =~= bytes@.subrange(10, 10 + (i + 1)));
            }
            i = i + 1;
        }
        let m = Message { message_type: bytes[0], request_id, op_code: op, payload_len: plen, payload };
        proof {
            assert(spec_decode(bytes@) == Ok::<MessageModel, DecodeError>(m@));
        }
        Ok(m)
    }
}

/// The payload length a frame header declares, so a reader knows how many
/// payload bytes follow the fixed-width header.
pub fn header_payload_len(header: &Vec<u8>) -> (r: u32)
    requires
        header@.len() >= 10,
    ensures
        r == spec_be_u32(header@[6], header@[7], header@[8], header@[9]),
{
    ((header[6] as u32) << 24) | ((header[7] as u32) << 16) | ((header[8] as u32) << 8) | (header[9]
        as u32)
}

/// Round-trip law: decoding the bytes produced by encoding any well-formed
/// frame yields that frame back.
pub proof fn lemma_message_round_trip(m: MessageModel)
    requires
        m.wf(),
    ensures
        spec_decode(spec_encode(m)) == Ok::<MessageModel, DecodeError>(m),
{
    let b = spec_encode(m);
    let plen = m.payload.len() as u32;
    assert(b.len() == 10 + m.payload.len());
    assert(spec_be_u32((plen >> 24) as u8, (plen >> 16) as u8, (plen >> 8) as u8, plen as u8)
        == plen) by (bit_vector);
    let x = m.request_id;
    assert(spec_be_u32((x >> 24) as u8, (x >> 16) as u8, (x >> 8) as u8, x as u8) == x)
        by (bit_vector);
    assert(spec_op_code_from_byte(op_code_byte(m.op_code)) == Some(m.op_code));
    assert(b.subrange(10, 10 + plen as int) =~= m.payload);
    assert(spec_decode(b) == Ok::<MessageModel, DecodeError>(m));
}

} // verus!
