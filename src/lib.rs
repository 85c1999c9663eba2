//! GIF frame model, colour-format conversions and palette quantisation,
//! with the container codec delegated to the `gif` crate.

pub mod color;
pub mod decoder;
pub mod encoder;
pub mod enums;
pub mod error;
pub mod frame;
mod gif_types;
pub mod laws;
pub mod quant;
