//! The payload codec: the closed set of payload layouts, keyed by the
//! header's message kind.

use vstd::prelude::*;
use crate::error::DecodeError;
use crate::wire::{
    copy_bytes, le16, le32, le64, read_u16, read_u32, read_u64, u16_at, u32_at, u64_at,
    write_bytes, write_u16, write_u32, write_u64,
};

verus! {

/// Kind of a request for the device's hardware version.
pub const DEVICE_GET_VERSION: u16 = 32;

/// Kind of the device's reply with its hardware version.
pub const DEVICE_STATE_VERSION: u16 = 33;

/// Kind of a request for the device's run-time information.
pub const DEVICE_GET_INFO: u16 = 34;

/// Kind of the device's reply with its run-time information.
pub const DEVICE_STATE_INFO: u16 = 35;

/// Kind of a light's reply with its color, power and label.
pub const LIGHT_STATE: u16 = 107;

/// Width in bytes of a `DeviceStateVersion` payload: three `u32`.
pub const DEVICE_STATE_VERSION_SIZE: usize = 12;

/// Width in bytes of a `DeviceStateInfo` payload: three `u64`.
pub const DEVICE_STATE_INFO_SIZE: usize = 24;

/// Width in bytes of a `LightState` payload: four `u16` of color, `i16` dim,
/// `u16` power, a 32-byte label and a `u64` of tags.
pub const LIGHT_STATE_SIZE: usize = 52;

/// A color as hue, saturation, brightness and kelvin.
#[derive(Clone, Copy, Debug, PartialEq, Eq, Structural)]
pub struct HSBK {
    pub hue: u16,
    pub saturation: u16,
    pub brightness: u16,
    pub kelvin: u16,
}

/// The body of a message. Each variant but `Empty` has its own kind; a kind
/// this codec does not know decodes to `Empty`.
#[derive(Clone, Copy, Debug, PartialEq, Eq)]
pub enum Payload {
    Empty,
    DeviceGetVersion,
    DeviceStateVersion { vendor: u32, product: u32, version: u32 },
    DeviceGetInfo,
    DeviceStateInfo { time: u64, uptime: u64, downtime: u64 },
    LightState { color: HSBK, dim: i16, power: u16, label: [u8; 32], tags: u64 },
}

/// The kinds that select a payload layout of their own.
pub open spec fn is_known_kind(kind: u16) -> bool {
    kind == DEVICE_GET_VERSION || kind == DEVICE_STATE_VERSION || kind == DEVICE_GET_INFO
        || kind == DEVICE_STATE_INFO || kind == LIGHT_STATE
}

/// The kind of a payload's variant; `Empty` has none.
pub open spec fn spec_kind(p: Payload) -> Option<u16> {
    match p {
        Payload::Empty => None,
        Payload::DeviceGetVersion => Some(DEVICE_GET_VERSION),
        Payload::DeviceStateVersion { .. } => Some(DEVICE_STATE_VERSION),
        Payload::DeviceGetInfo => Some(DEVICE_GET_INFO),
        Payload::DeviceStateInfo { .. } => Some(DEVICE_STATE_INFO),
        Payload::LightState { .. } => Some(LIGHT_STATE),
    }
}

/// How many bytes the payload of `kind` occupies on the wire.
pub open spec fn payload_width(kind: u16) -> nat {
    if kind == DEVICE_STATE_VERSION {
        DEVICE_STATE_VERSION_SIZE as nat
    } else if kind == DEVICE_STATE_INFO {
        DEVICE_STATE_INFO_SIZE as nat
    } else if kind == LIGHT_STATE {
        LIGHT_STATE_SIZE as nat
    } else {
        0
    }
}

/// The color stored in the first eight bytes of `b`.
pub open spec fn hsbk_at(b: Seq<u8>) -> HSBK {
    HSBK { hue: u16_at(b, 0), saturation: u16_at(b, 2), brightness: u16_at(b, 4), kelvin: u16_at(b, 6) }
}

/// `p` is what the bytes `b` hold as a payload of `kind`: the fields of the
/// variant that `kind` selects, read in order from the start of `b`.
pub open spec fn payload_matches(kind: u16, b: Seq<u8>, p: Payload) -> bool {
    if kind == DEVICE_GET_VERSION {
        p == Payload::DeviceGetVersion
    } else if kind == DEVICE_STATE_VERSION {
        p == Payload::DeviceStateVersion { vendor: u32_at(b, 0), product: u32_at(b, 4), version: u32_at(b, 8) }
    } else if kind == DEVICE_GET_INFO {
        p == Payload::DeviceGetInfo
    } else if kind == DEVICE_STATE_INFO {
        p == Payload::DeviceStateInfo { time: u64_at(b, 0), uptime: u64_at(b, 8), downtime: u64_at(b, 16) }
    } else if kind == LIGHT_STATE {
        match p {
            Payload::LightState { color, dim, power, label, tags } => {
                &&& color == hsbk_at(b)
                &&& dim == u16_at(b, 8) as i16
                &&& power == u16_at(b, 10)
                &&& label@ == b.subrange(12, 44)
                &&& tags == u64_at(b, 44)
            },
            _ => false,
        }
    } else {
        p == Payload::Empty
    }
}

/// The bytes of a payload on the wire: its fields in order, integers little-endian.
pub open spec fn payload_bytes(p: Payload) -> Seq<u8> {
    match p {
        Payload::DeviceStateVersion { vendor, product, version } => le32(vendor) + le32(product) + le32(version),
        Payload::DeviceStateInfo { time, uptime, downtime } => le64(time) + le64(uptime) + le64(downtime),
        Payload::LightState { color, dim, power, label, tags } =>
            le16(color.hue) + le16(color.saturation) + le16(color.brightness) + le16(color.kelvin)
                + le16(dim as u16) + le16(power) + label@ + le64(tags),
        _ => Seq::empty(),
    }
}

impl Default for Payload {
    fn default() -> (r: Payload)
        ensures
            r == Payload::Empty,
    {
        Payload::Empty
    }
}

impl Payload {
    /// The kind that selects this payload's layout, or `None` for `Empty`.
    pub fn kind(&self) -> (r: Option<u16>)
        ensures
            r == spec_kind(*self),
    {
        match self {
            Payload::Empty => None,
            Payload::DeviceGetVersion => Some(DEVICE_GET_VERSION),
            Payload::DeviceStateVersion { .. } => Some(DEVICE_STATE_VERSION),
            Payload::DeviceGetInfo => Some(DEVICE_GET_INFO),
            Payload::DeviceStateInfo { .. } => Some(DEVICE_STATE_INFO),
            Payload::LightState { .. } => Some(LIGHT_STATE),
        }
    }
}

/// Whether `kind` selects a payload layout of its own.
pub fn known_kind(kind: u16) -> (r: bool)
    ensures
        r == is_known_kind(kind),
{
    kind == DEVICE_GET_VERSION || kind == DEVICE_STATE_VERSION || kind == DEVICE_GET_INFO
        || kind == DEVICE_STATE_INFO || kind == LIGHT_STATE
}

/// Decodes the payload of `kind` from the start of `bytes`. Bytes past the
/// layout's width are ignored; a kind this codec does not know gives `Empty`.
pub fn decode_payload(kind: u16, bytes: &[u8]) -> (r: Result<Payload, DecodeError>)
    ensures
        r is Ok <==> bytes@.len() >= payload_width(kind),
        match r {
            Ok(p) => payload_matches(kind, bytes@, p),
            Err(e) => e == DecodeError::TruncatedInput,
        },
{
    let len: usize = bytes.len();
    if kind == DEVICE_GET_VERSION {
        Ok(Payload::DeviceGetVersion)
    } else if kind == DEVICE_STATE_VERSION {
        if len < DEVICE_STATE_VERSION_SIZE {
            return Err(DecodeError::TruncatedInput);
        }
        Ok(Payload::DeviceStateVersion {
            vendor: read_u32(bytes, 0),
            product: read_u32(bytes, 4),
            version: read_u32(bytes, 8),
        })
    } else if kind == DEVICE_GET_INFO {
        Ok(Payload::DeviceGetInfo)
    } else if kind == DEVICE_STATE_INFO {
        if len < DEVICE_STATE_INFO_SIZE {
            return Err(DecodeError::TruncatedInput);
        }
        Ok(Payload::DeviceStateInfo {
            time: read_u64(bytes, 0),
            uptime: read_u64(bytes, 8),
            downtime: read_u64(bytes, 16),
        })
    } else if kind == LIGHT_STATE {
        if len < LIGHT_STATE_SIZE {
            return Err(DecodeError::TruncatedInput);
        }
        let color = HSBK {
            hue: read_u16(bytes, 0),
            saturation: read_u16(bytes, 2),
            brightness: read_u16(bytes, 4),
            kelvin: read_u16(bytes, 6),
        };
        Ok(Payload::LightState {
            color,
            dim: read_u16(bytes, 8) as i16,
            power: read_u16(bytes, 10),
            label: copy_bytes::<32>(bytes, 12),
            tags: read_u64(bytes, 44),
        })
    } else {
        Ok(Payload::Empty)
    }
}

/// Encodes a payload: its kind (none for `Empty`) and its bytes.
pub fn encode_payload(p: &Payload) -> (r: (Option<u16>, Vec<u8>))
    ensures
        r.0 == spec_kind(*p),
        r.1@ == payload_bytes(*p),
{
    let mut out: Vec<u8> = Vec::new();
    match p {
        Payload::DeviceStateVersion { vendor, product, version } => {
            write_u32(&mut out, *vendor);
            write_u32(&mut out, *product);
            write_u32(&mut out, *version);
        },
        Payload::DeviceStateInfo { time, uptime, downtime } => {
            write_u64(&mut out, *time);
            write_u64(&mut out, *uptime);
            write_u64(&mut out, *downtime);
        },
        Payload::LightState { color, dim, power, label, tags } => {
            write_u16(&mut out, color.hue);
            write_u16(&mut out, color.saturation);
            write_u16(&mut out, color.brightness);
            write_u16(&mut out, color.kelvin);
            write_u16(&mut out, *dim as u16);
            write_u16(&mut out, *power);
            write_bytes(&mut out, label.as_slice());
            write_u64(&mut out, *tags);
        },
        _ => {},
    }
    assert(out@ =~= payload_bytes(*p));
    (p.kind(), out)
}

} // verus!
