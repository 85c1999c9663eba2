use vstd::prelude::*;

verus! {

/// Output mode for decoded image data.
#[derive(PartialEq, Eq, Structural, Clone, Copy, Debug)]
pub enum ColorOutput {
    /// Each pixel has red, green, blue and alpha components.
    Rgba,
    /// Each pixel is an index into a palette.
    IndexedPixels,
}

/// How the bytes of a frame's buffer are to be read.
#[derive(PartialEq, Eq, Structural, Clone, Copy, Debug)]
pub enum FrameBufType {
    Rgba,
    Rgb,
    IndexedPixels,
    /// RGBA bytes that were expanded from hex colour strings.
    Hex,
}

/// How the next frame is drawn over the current one.
#[derive(PartialEq, Eq, Structural, Clone, Copy, Debug)]
pub enum DisposalMethod {
    /// No specific action is required.
    Any,
    /// Retain the current frame as it is.
    Keep,
    /// Restore the canvas to its background colour.
    Background,
    /// Restore the canvas to the previous frame's state.
    Previous,
}

/// Number of buffer bytes that encode one pixel.
pub open spec fn bytes_per_pixel(kind: FrameBufType) -> nat {
    match kind {
        FrameBufType::Rgba | FrameBufType::Hex => 4,
        FrameBufType::Rgb => 3,
        FrameBufType::IndexedPixels => 1,
    }
}

impl FrameBufType {
    /// Number of buffer bytes that encode one pixel.
    pub fn bytes_per_pixel(&self) -> (r: u64)
        ensures
            r as nat == bytes_per_pixel(*self),
    {
        match self {
            FrameBufType::Rgba | FrameBufType::Hex => 4,
            FrameBufType::Rgb => 3,
            FrameBufType::IndexedPixels => 1,
        }
    }
}

} // verus!
