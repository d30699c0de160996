//! Monochrome fonts.

pub mod draw_target;
