//! Failure modes of decoding a wire message.

use vstd::prelude::*;

verus! {

/// Why a byte buffer was rejected by a decoder. Both conditions are local and
/// recoverable: the receive loop skips the datagram and continues.
#[derive(Debug, Clone, Copy, PartialEq, Eq, Structural)]
pub enum Error {
    /// The buffer's size lies outside the bounds the instruction requires.
    InvalidMessageLength,
    /// Byte 0 does not carry the role flag expected for this direction.
    InvalidFlag,
}

} // verus!
