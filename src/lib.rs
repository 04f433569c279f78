//! A codec for the frames of the LIFX LAN protocol: a fixed 36-byte header
//! followed by a payload whose layout is chosen by the header's message kind.

pub mod error;
pub mod header;
pub mod lemmas;
pub mod message;
pub mod payload;
pub mod wire;

pub use error::DecodeError;
pub use payload::{decode_payload, encode_payload, Payload, HSBK};
pub use header::{decode_header, encode_header, Header, HEADER_SIZE};
pub use message::Message;
