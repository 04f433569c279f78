//! The frame header codec: the fixed 36-byte header that starts every frame.

use vstd::prelude::*;
use crate::error::DecodeError;
use crate::wire::{
    copy_bytes, le16, le32, le64, read_u16, read_u64, u16_at, u64_at, write_bytes, write_u16,
    write_u32, write_u64,
};

verus! {

/// Length in bytes of the header that starts every frame.
pub const HEADER_SIZE: usize = 36;

/// Bits 0 to 11 of the protocol bitfield: the protocol version.
pub const VERSION_MASK: u16 = 0x0fff;

/// Bit 12 of the protocol bitfield: the frame carries a target address.
pub const ADDRESSABLE_BIT: u16 = 0x1000;

/// Bit 13 of the protocol bitfield: the frame is meant for every device.
pub const TAGGED_BIT: u16 = 0x2000;

/// Bit 0 of the acknowledgement bitfield: the sender wants an acknowledgement.
pub const ACKNOWLEDGE_BIT: u16 = 0x0001;

/// The fields of a frame header. The reserved fields of the wire format are
/// not kept.
#[derive(Clone, Copy, Debug, PartialEq, Eq)]
pub struct Header {
    pub size: u16,
    pub version: u16,
    pub addressable: bool,
    pub tagged: bool,
    pub target: [u8; 8],
    pub site: [u8; 6],
    pub acknowledge: bool,
    pub at_time: u64,
    pub kind: u16,
}

/// The protocol bitfield for a version and the two flags. Version bits above
/// the twelfth do not fit and are dropped.
pub open spec fn spec_pack_bitfield(version: u16, addressable: bool, tagged: bool) -> u16 {
    (version & VERSION_MASK) | (if addressable { ADDRESSABLE_BIT } else { 0 }) | (if tagged {
        TAGGED_BIT
    } else {
        0
    })
}

/// `h` holds the header stored at the start of `b`: each field read at its
/// offset, little-endian, the flags taken from their bits.
pub open spec fn header_matches(b: Seq<u8>, h: Header) -> bool {
    &&& h.size == u16_at(b, 0)
    &&& h.version == u16_at(b, 2) & VERSION_MASK
    &&& h.addressable == (u16_at(b, 2) & ADDRESSABLE_BIT != 0)
    &&& h.tagged == (u16_at(b, 2) & TAGGED_BIT != 0)
    &&& h.target@ == b.subrange(8, 16)
    &&& h.site@ == b.subrange(16, 22)
    &&& h.acknowledge == (u16_at(b, 22) & ACKNOWLEDGE_BIT != 0)
    &&& h.at_time == u64_at(b, 24)
    &&& h.kind == u16_at(b, 32)
}

/// The payload window of the frame that starts `b`: what the declared size
/// leaves after the header, cut to the bytes that are there.
pub open spec fn window_len(b: Seq<u8>) -> int {
    let declared = if u16_at(b, 0) >= HEADER_SIZE { u16_at(b, 0) - HEADER_SIZE } else { 0 };
    let available = b.len() - HEADER_SIZE;
    if declared <= available { declared } else { available }
}

/// The 36 bytes of a header on the wire; the reserved fields are zero.
pub open spec fn header_bytes(h: Header) -> Seq<u8> {
    le16(h.size) + le16(spec_pack_bitfield(h.version, h.addressable, h.tagged)) + le32(0)
        + h.target@ + h.site@ + le16(if h.acknowledge { ACKNOWLEDGE_BIT } else { 0 })
        + le64(h.at_time) + le16(h.kind) + le16(0)
}

/// Packs a version and the two flags into the protocol bitfield.
pub fn pack_bitfield(version: u16, addressable: bool, tagged: bool) -> (r: u16)
    ensures
        r == spec_pack_bitfield(version, addressable, tagged),
{
    let a: u16 = if addressable { ADDRESSABLE_BIT } else { 0 };
    let t: u16 = if tagged { TAGGED_BIT } else { 0 };
    (version & VERSION_MASK) | a | t
}

/// Splits the protocol bitfield into the version and the two flags; the two
/// reserved top bits are ignored.
pub fn unpack_bitfield(bits: u16) -> (r: (u16, bool, bool))
    ensures
        r.0 == bits & VERSION_MASK,
        r.1 == (bits & ADDRESSABLE_BIT != 0),
        r.2 == (bits & TAGGED_BIT != 0),
{
    (bits & VERSION_MASK, bits & ADDRESSABLE_BIT != 0, bits & TAGGED_BIT != 0)
}

/// Unpacking a packed bitfield gives back the version's low twelve bits and
/// both flags.
pub proof fn lemma_bitfield_round_trip(version: u16, addressable: bool, tagged: bool)
    ensures
        spec_pack_bitfield(version, addressable, tagged) & VERSION_MASK == version & VERSION_MASK,
        (spec_pack_bitfield(version, addressable, tagged) & ADDRESSABLE_BIT != 0) == addressable,
        (spec_pack_bitfield(version, addressable, tagged) & TAGGED_BIT != 0) == tagged,
{
    let a: u16 = if addressable { 0x1000 } else { 0 };
    let t: u16 = if tagged { 0x2000 } else { 0 };
    assert((a == 0 || a == 0x1000) && (t == 0 || t == 0x2000) ==> {
        &&& ((version & 0x0fff) | a | t) & 0x0fff == version & 0x0fff
        &&& (((version & 0x0fff) | a | t) & 0x1000 != 0) == (a == 0x1000)
        &&& (((version & 0x0fff) | a | t) & 0x2000 != 0) == (t == 0x2000)
    }) by (bit_vector);
}

/// Decodes the header at the start of `bytes`, and returns it with its
/// payload window: the bytes after the header, as many as the declared size
/// leaves, or all of them if fewer are there.
pub fn decode_header(bytes: &[u8]) -> (r: Result<(Header, &[u8]), DecodeError>)
    ensures
        r is Ok <==> bytes@.len() >= HEADER_SIZE,
        match r {
            Ok((h, rest)) => {
                &&& header_matches(bytes@, h)
                &&& rest@ == bytes@.subrange(HEADER_SIZE as int, HEADER_SIZE + window_len(bytes@))
            },
            Err(e) => e == DecodeError::TruncatedInput,
        },
{
    let len: usize = bytes.len();
    if len < HEADER_SIZE {
        return Err(DecodeError::TruncatedInput);
    }
    let size = read_u16(bytes, 0);
    let (version, addressable, tagged) = unpack_bitfield(read_u16(bytes, 2));
    let header = Header {
        size,
        version,
        addressable,
        tagged,
        target: copy_bytes::<8>(bytes, 8),
        site: copy_bytes::<6>(bytes, 16),
        acknowledge: read_u16(bytes, 22) & ACKNOWLEDGE_BIT != 0,
        at_time: read_u64(bytes, 24),
        kind: read_u16(bytes, 32),
    };
    let declared: usize = if size as usize >= HEADER_SIZE { size as usize - HEADER_SIZE } else { 0 };
    let available: usize = len - HEADER_SIZE;
    let window: usize = if declared <= available { declared } else { available };
    let rest = vstd::slice::slice_subrange(bytes, HEADER_SIZE, HEADER_SIZE + window);
    Ok((header, rest))
}

/// Encodes a header into its 36 bytes.
pub fn encode_header(h: &Header) -> (r: Vec<u8>)
    ensures
        r@ == header_bytes(*h),
        r@.len() == HEADER_SIZE,
{
    let mut out: Vec<u8> = Vec::new();
    write_u16(&mut out, h.size);
    write_u16(&mut out, pack_bitfield(h.version, h.addressable, h.tagged));
    write_u32(&mut out, 0);
    write_bytes(&mut out, h.target.as_slice());
    write_bytes(&mut out, h.site.as_slice());
    write_u16(&mut out, if h.acknowledge { ACKNOWLEDGE_BIT } else { 0 });
    write_u64(&mut out, h.at_time);
    write_u16(&mut out, h.kind);
    write_u16(&mut out, 0);
    proof {
        vstd::bytes::lemma_auto_spec_u16_to_from_le_bytes();
        vstd::bytes::lemma_auto_spec_u32_to_from_le_bytes();
        vstd::bytes::lemma_auto_spec_u64_to_from_le_bytes();
    }
    out
}

} // verus!
