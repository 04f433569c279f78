//! Whole frames: a header and the payload that its kind selects.

use vstd::prelude::*;
use crate::error::DecodeError;
use crate::header::{
    decode_header, encode_header, header_bytes, header_matches, window_len, Header, HEADER_SIZE,
    VERSION_MASK,
};
use crate::payload::{
    decode_payload, encode_payload, is_known_kind, known_kind, payload_bytes, payload_matches,
    payload_width, spec_kind, Payload,
};
use crate::wire::{u16_at, write_bytes};

verus! {

/// One decoded frame: the header's fields and the payload.
#[derive(Clone, Copy, Debug, PartialEq, Eq)]
pub struct Message {
    pub size: u16,
    /// The protocol version; twelve bits on the wire.
    pub version: u16,
    pub addressable: bool,
    pub tagged: bool,
    pub target: [u8; 8],
    pub site: [u8; 6],
    pub acknowledge: bool,
    pub at_time: u64,
    pub kind: u16,
    pub payload: Payload,
}

/// The kind written for a message: that of its payload's variant. An `Empty`
/// payload keeps the message's own kind where that selects no layout, and
/// is sent as kind zero otherwise, so that the wire never pairs a kind with
/// a payload of another variant.
pub open spec fn wire_kind(m: Message) -> u16 {
    match spec_kind(m.payload) {
        Some(k) => k,
        None => if is_known_kind(m.kind) { 0 } else { m.kind },
    }
}

/// The length of the frame that carries `p`.
pub open spec fn frame_size(p: Payload) -> nat {
    (HEADER_SIZE + payload_bytes(p).len()) as nat
}

/// The header written for `m`: its size and kind are derived from the payload.
pub open spec fn wire_header(m: Message) -> Header {
    Header {
        size: frame_size(m.payload) as u16,
        version: m.version,
        addressable: m.addressable,
        tagged: m.tagged,
        target: m.target,
        site: m.site,
        acknowledge: m.acknowledge,
        at_time: m.at_time,
        kind: wire_kind(m),
    }
}

/// The bytes of the frame that encodes `m`.
pub open spec fn message_bytes(m: Message) -> Seq<u8> {
    header_bytes(wire_header(m)) + payload_bytes(m.payload)
}

/// The frame at the start of `b` cannot be decoded: the header is cut short,
/// or the payload window is shorter than the layout its kind selects.
pub open spec fn is_truncated(b: Seq<u8>) -> bool {
    b.len() < HEADER_SIZE || window_len(b) < payload_width(u16_at(b, 32))
}

/// `m` is what the frame at the start of `b` decodes to.
pub open spec fn frame_matches(b: Seq<u8>, m: Message) -> bool {
    &&& !is_truncated(b)
    &&& header_matches(b, m.spec_header())
    &&& payload_matches(m.kind, b.subrange(HEADER_SIZE as int, HEADER_SIZE + window_len(b)), m.payload)
}

impl Message {
    /// A message whose header fields are the ones it would carry if it were
    /// encoded.
    pub open spec fn wf(self) -> bool {
        &&& self.version <= VERSION_MASK
        &&& self.size == frame_size(self.payload)
        &&& match spec_kind(self.payload) {
            Some(k) => self.kind == k,
            None => !is_known_kind(self.kind),
        }
    }

    pub open spec fn spec_header(self) -> Header {
        Header {
            size: self.size,
            version: self.version,
            addressable: self.addressable,
            tagged: self.tagged,
            target: self.target,
            site: self.site,
            acknowledge: self.acknowledge,
            at_time: self.at_time,
            kind: self.kind,
        }
    }

    pub open spec fn spec_from_parts(h: Header, payload: Payload) -> Message {
        Message {
            size: h.size,
            version: h.version,
            addressable: h.addressable,
            tagged: h.tagged,
            target: h.target,
            site: h.site,
            acknowledge: h.acknowledge,
            at_time: h.at_time,
            kind: h.kind,
            payload,
        }
    }

    /// A message with every field zero and an `Empty` payload.
    pub fn new() -> (r: Message)
        ensures
            r.size == 0,
            r.version == 0,
            !r.addressable,
            !r.tagged,
            r.target@ == seq![0u8; 8],
            r.site@ == seq![0u8; 6],
            !r.acknowledge,
            r.at_time == 0,
            r.kind == 0,
            r.payload == Payload::Empty,
    {
        let m = Message {
            size: 0,
            version: 0,
            addressable: false,
            tagged: false,
            target: [0, 0, 0, 0, 0, 0, 0, 0],
            site: [0, 0, 0, 0, 0, 0],
            acknowledge: false,
            at_time: 0,
            kind: 0,
            payload: Payload::Empty,
        };
        assert(m.target@ =~= seq![0u8; 8]);
        assert(m.site@ =~= seq![0u8; 6]);
        m
    }

    /// The message's header fields.
    pub fn header(&self) -> (r: Header)
        ensures
            r == self.spec_header(),
    {
        Header {
            size: self.size,
            version: self.version,
            addressable: self.addressable,
            tagged: self.tagged,
            target: self.target,
            site: self.site,
            acknowledge: self.acknowledge,
            at_time: self.at_time,
            kind: self.kind,
        }
    }

    /// Joins a header and a payload into a message.
    pub fn from_parts(h: Header, payload: Payload) -> (r: Message)
        ensures
            r == Message::spec_from_parts(h, payload),
    {
        Message {
            size: h.size,
            version: h.version,
            addressable: h.addressable,
            tagged: h.tagged,
            target: h.target,
            site: h.site,
            acknowledge: h.acknowledge,
            at_time: h.at_time,
            kind: h.kind,
            payload,
        }
    }

    /// Decodes the frame at the start of `reader` and moves `reader` past it:
    /// past the header and the payload window. On failure `reader` is left
    /// as it was.
    pub fn from_reader(reader: &mut &[u8]) -> (r: Result<Message, DecodeError>)
        ensures
            r is Ok <==> !is_truncated(old(reader)@),
            match r {
                Ok(m) => {
                    &&& frame_matches(old(reader)@, m)
                    &&& final(reader)@ == old(reader)@.subrange(
                        HEADER_SIZE + window_len(old(reader)@),
                        old(reader)@.len() as int,
                    )
                },
                Err(e) => e == DecodeError::TruncatedInput && final(reader)@ == old(reader)@,
            },
    {
        let bytes: &[u8] = *reader;
        let (header, rest) = match decode_header(bytes) {
            Ok(parts) => parts,
            Err(e) => return Err(e),
        };
        let payload = match decode_payload(header.kind, rest) {
            Ok(p) => p,
            Err(e) => return Err(e),
        };
        let consumed: usize = HEADER_SIZE + rest.len();
        *reader = vstd::slice::slice_subrange(bytes, consumed, bytes.len());
        Ok(Message::from_parts(header, payload))
    }

    /// Decodes the frame at the start of `bytes`. Bytes past the declared
    /// size are ignored.
    pub fn from_bytes(bytes: &[u8]) -> (r: Result<Message, DecodeError>)
        ensures
            r is Ok <==> !is_truncated(bytes@),
            bytes@.len() < HEADER_SIZE ==> r == Err::<Message, DecodeError>(DecodeError::TruncatedInput),
            match r {
                Ok(m) => frame_matches(bytes@, m),
                Err(e) => e == DecodeError::TruncatedInput,
            },
    {
        let mut reader: &[u8] = bytes;
        Message::from_reader(&mut reader)
    }

    /// The kind written when this message is encoded.
    pub fn wire_kind(&self) -> (r: u16)
        ensures
            r == wire_kind(*self),
    {
        match self.payload.kind() {
            Some(k) => k,
            None => if known_kind(self.kind) { 0 } else { self.kind },
        }
    }

    /// Encodes the message into one frame. The size and kind written are
    /// derived from the payload, not taken from the message's own fields.
    pub fn to_bytes(&self) -> (r: Vec<u8>)
        ensures
            r@ == message_bytes(*self),
            r@.len() == frame_size(self.payload),
    {
        let (_, body) = encode_payload(&self.payload);
        proof {
            lemma_payload_bytes_len(self.payload);
        }
        let size: u16 = (HEADER_SIZE + body.len()) as u16;
        let header = Header {
            size,
            version: self.version,
            addressable: self.addressable,
            tagged: self.tagged,
            target: self.target,
            site: self.site,
            acknowledge: self.acknowledge,
            at_time: self.at_time,
            kind: self.wire_kind(),
        };
        let mut out = encode_header(&header);
        write_bytes(&mut out, body.as_slice());
        assert(header == wire_header(*self));
        out
    }
}

impl Default for Message {
    fn default() -> (r: Message)
        ensures
            r.size == 0,
            r.version == 0,
            !r.addressable,
            !r.tagged,
            r.target@ == seq![0u8; 8],
            r.site@ == seq![0u8; 6],
            !r.acknowledge,
            r.at_time == 0,
            r.kind == 0,
            r.payload == Payload::Empty,
    {
        Message::new()
    }
}

/// A payload's bytes are as long as the layout of its kind, and at most 52.
pub proof fn lemma_payload_bytes_len(p: Payload)
    ensures
        payload_bytes(p).len() == payload_width(
            match spec_kind(p) {
                Some(k) => k,
                None => 0u16,
            },
        ),
        payload_bytes(p).len() <= 52,
{
    vstd::bytes::lemma_auto_spec_u16_to_from_le_bytes();
    vstd::bytes::lemma_auto_spec_u32_to_from_le_bytes();
    vstd::bytes::lemma_auto_spec_u64_to_from_le_bytes();
}

} // verus!
