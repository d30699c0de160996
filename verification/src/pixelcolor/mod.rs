//! Pixel colors and their raw data.

mod binary_color;
pub mod raw;

pub use binary_color::BinaryColor;
