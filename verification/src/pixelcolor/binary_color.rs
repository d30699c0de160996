//! Binary color.

use vstd::prelude::*;

verus! {

/// Binary color.
///
/// `BinaryColor` is used for displays and images with two possible color
/// states, and for the pixels of a monochrome glyph.
#[derive(Copy, Clone, Debug, PartialEq, Eq, PartialOrd, Ord, Hash, Structural)]
pub enum BinaryColor {
    /// Inactive pixel.
    Off,
    /// Active pixel.
    On,
}

impl BinaryColor {
    /// Returns `true` if this color is `On`.
    #[inline]
    pub fn is_on(self) -> (on: bool)
        ensures
            on == (self == BinaryColor::On),
    {
        match self {
            BinaryColor::On => true,
            BinaryColor::Off => false,
        }
    }

    /// Returns `true` if this color is `Off`.
    #[inline]
    pub fn is_off(self) -> (off: bool)
        ensures
            off == (self == BinaryColor::Off),
    {
        match self {
            BinaryColor::On => false,
            BinaryColor::Off => true,
        }
    }
}

impl Default for BinaryColor {
    /// The inactive color.
    fn default() -> (color: Self)
        ensures
            color == BinaryColor::Off,
    {
        BinaryColor::Off
    }
}

} // verus!
