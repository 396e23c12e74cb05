use vstd::prelude::*;

use crate::error::TwineTlvError;

verus! {

/// Errors of the dataset types.
#[derive(Clone, Copy, Debug, PartialEq, Eq)]
pub enum TwineCodecError {
    /// The bytes could not be turned into the named type.
    BufferBytesConversion(&'static str),
    /// Too many bytes for the named type: (type, maximum, found).
    BufferMaxLength(&'static str, usize, usize),
    /// The named type could not be built.
    TypeBuildError(&'static str),
    /// A failure outside the codec.
    Internal(&'static str),
    /// The text is not an even-length string of hex digits, or too long.
    HexDecodeError,
    /// The text could not be parsed.
    StringParseError,
    /// A record could not be written or read.
    Tlv(TwineTlvError),
}

} // verus!
