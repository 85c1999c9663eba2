use vstd::prelude::*;

verus! {

/// The ways an operation of this library can fail.
#[derive(PartialEq, Eq, Structural, Clone, Copy, Debug)]
pub enum GifError {
    /// An argument has the wrong shape (a byte count, a hex string's length).
    InvalidInput,
    /// A character of a hex colour is not a base-16 digit.
    ParseError,
    /// A pixel buffer's length does not match the frame's geometry and encoding.
    SizeMismatch,
    /// A numeric setting lies outside its allowed range.
    RangeError,
    /// A frame's size differs from the encoder's canvas.
    DimensionMismatch,
    /// The GIF codec reported a failure.
    CodecFailure,
}

impl GifError {
    /// A short human-readable description.
    pub fn message(&self) -> (r: &'static str) {
        match self {
            GifError::InvalidInput => "invalid input",
            GifError::ParseError => "hex digits do not parse as base 16",
            GifError::SizeMismatch => "buffer size mismatch",
            GifError::RangeError => "value out of range",
            GifError::DimensionMismatch => "frame dimensions do not match the encoder",
            GifError::CodecFailure => "the GIF codec failed",
        }
    }
}

} // verus!
