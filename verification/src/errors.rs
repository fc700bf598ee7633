//! Error values of the decoder.

use vstd::prelude::*;

verus! {

/// Failure of decoding one 32-bit word.
///
/// `invalid_set_bytes` carries the offending bit pattern: for a field that
/// must be zero, the bits that were set; for a field that must hold a fixed
/// pattern, the bits that differ from it; for a word that matches no
/// instruction form at all, the whole unrecognized pattern.
#[derive(Debug, Clone, Copy, PartialEq, Eq, Structural)]
pub enum ParseError {
    InvalidMask { invalid_set_bytes: u32 },
}

/// Failure of turning an input image into decoded instructions.
#[derive(Debug, Clone, Copy, PartialEq, Eq, Structural)]
pub enum DisasemblerError {
    /// The image is too short to hold the fixed-layout header.
    FileToShort,
    /// The code region's byte count is not a multiple of the word size;
    /// carries the number of left-over bytes.
    UnaligedFile(usize),
    /// A word failed to decode.
    Parse(ParseError),
}

impl From<ParseError> for DisasemblerError {
    fn from(value: ParseError) -> Self {
        DisasemblerError::Parse(value)
    }
}

impl vstd::std_specs::convert::FromSpecImpl<ParseError> for DisasemblerError {
    open spec fn obeys_from_spec() -> bool {
        true
    }

    open spec fn from_spec(value: ParseError) -> Self {
        DisasemblerError::Parse(value)
    }
}

} // verus!
