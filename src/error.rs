use vstd::prelude::*;

verus! {

/// Why a buffer could not be decoded into a message.
#[derive(Clone, Copy, Debug, PartialEq, Eq, Structural)]
pub enum DecodeError {
    /// Fewer bytes were available than the header, or the payload layout
    /// selected by the message kind, requires.
    TruncatedInput,
}

} // verus!
