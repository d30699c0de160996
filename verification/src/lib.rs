//! Raw pixel data for packed framebuffers.
//!
//! A pixel's color is stored as a bit pattern of 1, 2, 4, 8, 16, 24 or 32 bits.
//! The [`pixelcolor::raw`] module holds one type for each of these widths and
//! reads and writes such patterns in byte buffers, in either of two data
//! orders. The [`mono_font`] module decides which color a pixel of a
//! monochrome glyph is drawn in.
//!
//! Every function of this crate is verified against its contract.

pub mod mono_font;
pub mod pixelcolor;
