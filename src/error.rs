use vstd::prelude::*;

verus! {

/// Errors of the TLV codec.
#[derive(Clone, Copy, Debug, PartialEq, Eq)]
pub enum TwineTlvError {
    /// The buffer is too short to hold the record that is being decoded.
    BufferDecodeTooShort,
    /// The declared length differs from the expected one: (expected, found).
    BufferDecodeUnexpectedTlvLength(usize, usize),
    /// The destination is too short for the record that is being encoded.
    BufferEncodeTooShort,
    /// A value or a collection would exceed its maximum length.
    BufferMaxLength,
    /// The record's type byte is not the expected one.
    BufferWrongType,
    /// The input is not an even-length string of hex digits.
    HexError,
}

} // verus!
