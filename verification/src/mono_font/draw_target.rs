//! The draw target that a monochrome glyph is drawn to.
//!
//! A glyph is made of pixels that are on or off. [`MonoFontDrawTarget`] stands
//! between the glyph and the target that is drawn to, and its color mode
//! decides in which color such a pixel is drawn there, if it is drawn at all.

use crate::pixelcolor::BinaryColor;
use vstd::prelude::*;

verus! {

/// A draw target for the pixels of a monochrome glyph, which borrows the
/// target that is drawn to and holds the color mode.
pub struct MonoFontDrawTarget<'a, T, C> {
    /// The target that is drawn to.
    pub parent: &'a mut T,
    /// The color mode.
    pub colors: C,
}

impl<'a, T, C> MonoFontDrawTarget<'a, T, C> {
    /// Creates a draw target that draws to `parent` in the color mode
    /// `colors`.
    ///
    /// The draw target holds the borrow of `parent`: what is done to its
    /// parent is done to `parent`.
    pub fn new(parent: &'a mut T, colors: C) -> (target: Self)
        ensures
            target.colors == colors,
            *target.parent == *old(parent),
            *final(target.parent) == *final(parent),
    {
        Self { parent, colors }
    }
}

/// Color mode in which only the pixels of a glyph that are on are drawn.
pub struct Foreground<C>(pub C);

/// Color mode in which only the pixels of a glyph that are off are drawn.
pub struct Background<C>(pub C);

/// Color mode in which every pixel of a glyph is drawn: the first color is
/// for the pixels that are on and the second for those that are off.
pub struct Both<C>(pub C, pub C);

impl<C: Copy> Foreground<C> {
    /// The color in which a pixel of a glyph is drawn: the foreground color
    /// if the pixel is on. A pixel that is off is not drawn.
    pub fn pixel_color(&self, color: BinaryColor) -> (drawn: Option<C>)
        ensures
            drawn == (match color {
                BinaryColor::On => Some(self.0),
                BinaryColor::Off => None,
            }),
    {
        if color.is_on() {
            Some(self.0)
        } else {
            None
        }
    }
}

impl<C: Copy> Background<C> {
    /// The color in which a pixel of a glyph is drawn: the background color
    /// if the pixel is off. A pixel that is on is not drawn.
    pub fn pixel_color(&self, color: BinaryColor) -> (drawn: Option<C>)
        ensures
            drawn == (match color {
                BinaryColor::On => None,
                BinaryColor::Off => Some(self.0),
            }),
    {
        if color.is_off() {
            Some(self.0)
        } else {
            None
        }
    }
}

impl<C: Copy> Both<C> {
    /// The color in which a pixel of a glyph is drawn: the foreground color
    /// if the pixel is on and the background color if it is off.
    pub fn pixel_color(&self, color: BinaryColor) -> (drawn: C)
        ensures
            drawn == (match color {
                BinaryColor::On => self.0,
                BinaryColor::Off => self.1,
            }),
    {
        match color {
            BinaryColor::On => self.0,
            BinaryColor::Off => self.1,
        }
    }
}

} // verus!
