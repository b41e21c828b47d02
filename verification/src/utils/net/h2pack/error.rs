//! The reasons for which decoding a header block stops.
use vstd::prelude::*;

verus! {

/// Why a header block was abandoned. Every error ends the decoding of the
/// whole block.
#[derive(PartialEq, Eq, Structural, Copy, Clone, Debug)]
pub enum ParseError {
    /// Kept for a decoder that tracks the dynamic table; never returned.
    HeaderIndexOutOfBounds,
    /// Kept for a decoder that tracks the dynamic table; never returned.
    NotStaticField,
    /// The prefix width is not within 1..=8, or an integer runs over more
    /// octets than the limit allows.
    InvalidInteger,
    /// The requested and the largest allowed size of the dynamic table.
    /// Kept for a decoder that tracks the dynamic table; never returned.
    InvalidMaxDynamicSize(u32, u32),
    /// A length read from the block points past the end of the block.
    InvalidInput,
    /// The block ends in the middle of an integer.
    NotEnoughOctets,
    /// The resolver could not decode a string of the field.
    InvalidHuffmanCode,
}

} // verus!
