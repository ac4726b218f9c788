//! Images and their conversions.
pub mod flip;
pub mod laws;
pub mod png_image;
pub mod texel;
