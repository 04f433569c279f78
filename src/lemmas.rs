//! What holds of decoding and encoding together.

use vstd::prelude::*;
use crate::header::{
    header_bytes, header_matches, lemma_bitfield_round_trip, spec_pack_bitfield, window_len,
    HEADER_SIZE, VERSION_MASK, ACKNOWLEDGE_BIT,
};
use crate::message::{
    frame_matches, frame_size, is_truncated, lemma_payload_bytes_len, message_bytes, wire_header,
    wire_kind, Message,
};
use crate::payload::{
    hsbk_at, is_known_kind, payload_bytes, payload_matches, spec_kind, Payload,
    LIGHT_STATE_SIZE,
};
use crate::wire::{le16, le32, le64, u16_at};

verus! {

/// What decoding the frame of `m` gives: `m` with its version cut to twelve
/// bits, and its size and kind as the encoder derives them from the payload.
pub open spec fn encoded_form(m: Message) -> Message {
    Message {
        size: frame_size(m.payload) as u16,
        version: m.version & VERSION_MASK,
        kind: wire_kind(m),
        ..m
    }
}

/// The bytes of a payload decode, under a kind that selects its variant, to
/// that payload; an `Empty` one decodes so under any kind without a layout.
pub proof fn lemma_payload_round_trip(kind: u16, p: Payload)
    requires
        spec_kind(p) == Some(kind) || (p == Payload::Empty && !is_known_kind(kind)),
    ensures
        payload_matches(kind, payload_bytes(p), p),
{
    vstd::bytes::lemma_auto_spec_u16_to_from_le_bytes();
    vstd::bytes::lemma_auto_spec_u32_to_from_le_bytes();
    vstd::bytes::lemma_auto_spec_u64_to_from_le_bytes();
    let b = payload_bytes(p);
    match p {
        Payload::DeviceStateVersion { vendor, product, version } => {
            assert(b.subrange(0, 4) =~= le32(vendor));
            assert(b.subrange(4, 8) =~= le32(product));
            assert(b.subrange(8, 12) =~= le32(version));
        },
        Payload::DeviceStateInfo { time, uptime, downtime } => {
            assert(b.subrange(0, 8) =~= le64(time));
            assert(b.subrange(8, 16) =~= le64(uptime));
            assert(b.subrange(16, 24) =~= le64(downtime));
        },
        Payload::LightState { color, dim, power, label, tags } => {
            assert(b.subrange(0, 2) =~= le16(color.hue));
            assert(b.subrange(2, 4) =~= le16(color.saturation));
            assert(b.subrange(4, 6) =~= le16(color.brightness));
            assert(b.subrange(6, 8) =~= le16(color.kelvin));
            assert(b.subrange(8, 10) =~= le16(dim as u16));
            assert(b.subrange(10, 12) =~= le16(power));
            assert(b.subrange(12, 44) =~= label@);
            assert(b.subrange(44, 52) =~= le64(tags));
            assert(((dim as u16) as i16) == dim) by (bit_vector);
            assert(hsbk_at(b) == color);
        },
        _ => {},
    }
}

/// Decoding the frame that encodes any message succeeds, and gives the
/// message's encoded form: the payload comes back unchanged, under a kind
/// that agrees with its variant.
pub proof fn lemma_encode_then_decode(m: Message)
    ensures
        !is_truncated(message_bytes(m)),
        frame_matches(message_bytes(m), encoded_form(m)),
{
    vstd::bytes::lemma_auto_spec_u16_to_from_le_bytes();
    vstd::bytes::lemma_auto_spec_u32_to_from_le_bytes();
    vstd::bytes::lemma_auto_spec_u64_to_from_le_bytes();
    lemma_payload_bytes_len(m.payload);
    lemma_bitfield_round_trip(m.version, m.addressable, m.tagged);
    let h = wire_header(m);
    let pb = payload_bytes(m.payload);
    let b = message_bytes(m);
    let e = encoded_form(m);
    assert(header_bytes(h).len() == HEADER_SIZE);
    assert(b.subrange(0, 2) =~= le16(h.size));
    assert(b.subrange(2, 4) =~= le16(spec_pack_bitfield(m.version, m.addressable, m.tagged)));
    assert(b.subrange(8, 16) =~= m.target@);
    assert(b.subrange(16, 22) =~= m.site@);
    assert(b.subrange(22, 24) =~= le16(if m.acknowledge { ACKNOWLEDGE_BIT } else { 0 }));
    assert(b.subrange(24, 32) =~= le64(m.at_time));
    assert(b.subrange(32, 34) =~= le16(h.kind));
    assert(b.subrange(HEADER_SIZE as int, HEADER_SIZE + pb.len()) =~= pb);
    assert((ACKNOWLEDGE_BIT & ACKNOWLEDGE_BIT != 0) && (0u16 & ACKNOWLEDGE_BIT == 0)) by (bit_vector);
    assert(window_len(b) == pb.len());
    assert(header_matches(b, e.spec_header()));
    lemma_payload_round_trip(wire_kind(m), m.payload);
}

/// Round trip: a well-formed message decodes from its own frame to itself.
pub proof fn lemma_round_trip(m: Message)
    requires
        m.wf(),
    ensures
        !is_truncated(message_bytes(m)),
        frame_matches(message_bytes(m), m),
{
    lemma_encode_then_decode(m);
    let v = m.version;
    assert(v <= 0x0fff ==> v & 0x0fff == v) by (bit_vector);
    assert(encoded_form(m) == m);
}

/// A buffer decodes to one message at most: decoding the same bytes twice
/// gives equal messages.
pub proof fn lemma_decode_deterministic(b: Seq<u8>, m1: Message, m2: Message)
    requires
        frame_matches(b, m1),
        frame_matches(b, m2),
    ensures
        m1 == m2,
{
    broadcast use vstd::array::axiom_array_ext_equal;

    assert(m1.target == m2.target);
    assert(m1.site == m2.site);
    match (m1.payload, m2.payload) {
        (
            Payload::LightState { label: l1, .. },
            Payload::LightState { label: l2, .. },
        ) => {
            assert(l1 == l2);
        },
        _ => {},
    }
}

/// A frame whose kind selects no layout decodes, whatever bytes follow its
/// header, and its payload is `Empty`.
pub proof fn lemma_unknown_kind_is_empty(b: Seq<u8>, m: Message)
    requires
        b.len() >= HEADER_SIZE,
        !is_known_kind(u16_at(b, 32)),
    ensures
        !is_truncated(b),
        frame_matches(b, m) ==> m.payload == Payload::Empty,
{
}

/// Every message whose payload is a `LightState` encodes into a frame of the
/// same length: the header and the fixed width of that layout.
pub proof fn lemma_light_state_frame_len(m: Message)
    requires
        m.payload is LightState,
    ensures
        message_bytes(m).len() == HEADER_SIZE + LIGHT_STATE_SIZE,
{
    lemma_payload_bytes_len(m.payload);
    vstd::bytes::lemma_auto_spec_u16_to_from_le_bytes();
    vstd::bytes::lemma_auto_spec_u32_to_from_le_bytes();
    vstd::bytes::lemma_auto_spec_u64_to_from_le_bytes();
}

} // verus!
