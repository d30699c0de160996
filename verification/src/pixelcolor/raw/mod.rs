//! Raw color types.
//!
//! This module contains structs to represent the raw data used to store color
//! information. A raw value is a pattern of 1, 2, 4, 8, 16, 24 or 32 bits that
//! is held in the smallest unsigned integer that has room for it, and there is
//! one type for each of these widths: [`RawU1`], [`RawU2`], [`RawU4`],
//! [`RawU8`], [`RawU16`], [`RawU24`] and [`RawU32`]. No bit above the width is
//! ever set in a raw value.
//!
//! # Packed buffers
//!
//! The [`RawData`] trait, which all of these types implement, loads raw data
//! from and stores raw data into a buffer of packed pixels. The buffer holds
//! nothing but the pixels, one after the other, and a pixel is found by its
//! index alone. Two [data orders](DataOrder) say how the pixels lie in the
//! bytes: [`LittleEndianMsb0`] and [`BigEndianLsb0`].
//!
//! Raw data of 4 bits per pixel lies in two bytes like this:
//!
//! | index in `LittleEndianMsb0` | 0 | 1 | 2 | 3 |
//! |-----------------------------|---|---|---|---|
//! | bits of `[0x12, 0x4F]`      | `0x1` | `0x2` | `0x4` | `0xF` |
//!
//! In `BigEndianLsb0` the same bytes hold `0x2`, `0x1`, `0xF` and `0x4`.
//!
//! What is loaded and stored is stated over the functions of the [`layout`]
//! module, which is the model of such a buffer.
//!
//! # Converting raw data to bytes
//!
//! The [`ToBytes`] trait converts raw data into an array of its significant
//! bytes, in the byte order that the name of the method asks for.

use vstd::prelude::*;

pub mod layout;
mod load_store;
mod private;
mod raw_u1;
mod raw_u16;
mod raw_u2;
mod raw_u24;
mod raw_u32;
mod raw_u4;
mod raw_u8;
mod to_bytes;

pub use raw_u1::RawU1;
pub use raw_u16::RawU16;
pub use raw_u2::RawU2;
pub use raw_u24::RawU24;
pub use raw_u32::RawU32;
pub use raw_u4::RawU4;
pub use raw_u8::RawU8;
pub use to_bytes::ToBytes;

use layout::{in_bounds, is_pixel_width, loaded, low_mask, stored};

verus! {

/// Out of bounds error.
#[derive(Debug, Clone, Copy, PartialEq, Eq, PartialOrd, Ord, Hash, Structural)]
pub struct OutOfBoundsError;

/// What storing a pixel returns: `Ok` if the pixel lies inside the buffer, and
/// the out of bounds error otherwise.
pub open spec fn store_result(inside: bool) -> Result<(), OutOfBoundsError> {
    if inside {
        Ok(())
    } else {
        Err(OutOfBoundsError)
    }
}

/// Trait implemented by all `RawUx` types.
pub trait RawData: Sized + private::Sealed + From<<Self as RawData>::Storage> + ToBytes {
    /// Storage type.
    ///
    /// A primitive unsigned integer storage type that contains at least `BITS_PER_PIXEL` bits.
    type Storage;

    /// Bits per pixel.
    const BITS_PER_PIXEL: usize;

    /// Bit mask.
    const MASK: Self::Storage;

    /// The number of bits per pixel: the value of `BITS_PER_PIXEL`.
    spec fn bits_per_pixel() -> int;

    /// This raw data as a 32 bit value.
    spec fn as_u32(&self) -> u32;

    /// A value of the storage type as a 32 bit value.
    spec fn storage_as_u32(storage: Self::Storage) -> u32;

    /// The number of bits per pixel is one of the seven supported widths, and
    /// the two constants have the values that belong to it.
    proof fn lemma_constants()
        ensures
            is_pixel_width(Self::bits_per_pixel()),
            Self::BITS_PER_PIXEL == Self::bits_per_pixel(),
            Self::storage_as_u32(Self::MASK) == low_mask(Self::bits_per_pixel()),
    ;

    /// Converts this raw data into the storage type.
    ///
    /// If the primitive integer types used as the storage type contains more bits
    /// than used by this type the unused most significant bits are set to `0`.
    fn into_inner(self) -> (storage: Self::Storage)
        ensures
            Self::storage_as_u32(storage) == self.as_u32(),
            self.as_u32() & low_mask(Self::bits_per_pixel()) == self.as_u32(),
            self.as_u32() <= low_mask(Self::bits_per_pixel()),
    ;

    /// Converts a `u32` into a `RawData` type.
    ///
    /// This method can be used to generically construct all `RawData` types from
    /// the same integer type. If the width of the `RawData` type is less than
    /// 32 bits only the least significant bits are used.
    fn from_u32(value: u32) -> (raw: Self)
        ensures
            raw.as_u32() == value & low_mask(Self::bits_per_pixel()),
    ;

    /// Loads raw data from a buffer.
    ///
    /// Returns `None` if the index is out of bounds.
    fn load<O: DataOrder>(buffer: &[u8], index: usize) -> (raw: Option<Self>)
        ensures
            (match raw {
                Some(raw) => loaded(
                    buffer@,
                    index as int,
                    Self::bits_per_pixel(),
                    O::is_alternate_order(),
                ) == Some(raw.as_u32()),
                None => !in_bounds(buffer@.len() as int, index as int, Self::bits_per_pixel()),
            }),
    ;

    /// Stores raw data into a buffer.
    ///
    /// Returns an error if the index is out of bounds, and leaves the buffer
    /// as it is. Otherwise the pixel `index` of the buffer holds this raw
    /// data, so that it is what is loaded from there, and what is loaded from
    /// any other index is what it was before.
    fn store<O: DataOrder>(
        self,
        buffer: &mut [u8],
        index: usize,
    ) -> (result: Result<(), OutOfBoundsError>)
        ensures
            result == store_result(
                in_bounds(old(buffer)@.len() as int, index as int, Self::bits_per_pixel()),
            ),
            final(buffer)@ == stored(
                old(buffer)@,
                index as int,
                Self::bits_per_pixel(),
                O::is_alternate_order(),
                self.as_u32(),
            ),
            final(buffer)@.len() == old(buffer)@.len(),
            result.is_ok() ==> loaded(
                final(buffer)@,
                index as int,
                Self::bits_per_pixel(),
                O::is_alternate_order(),
            ) == Some(self.as_u32()),
            forall|other: int|
                0 <= other && other != index ==> #[trigger] loaded(
                    final(buffer)@,
                    other,
                    Self::bits_per_pixel(),
                    O::is_alternate_order(),
                ) == loaded(old(buffer)@, other, Self::bits_per_pixel(), O::is_alternate_order()),
    ;
}

/// Little endian or most significant bits first data order.
///
/// For buffers where the pixel bit depth is a multiple of 8, the pixel data is
/// stored in least significant byte first order. For other bit depths, the
/// pixel data is packed into bytes from left to right with the most significant
/// bits used first within each byte.
#[derive(Copy, Clone, Eq, PartialEq, Ord, PartialOrd, Hash, Debug)]
pub enum LittleEndianMsb0 {
    /// The only value of this type, which stands for the data order.
    LittleEndianMsb0,
}

/// Big endian or least significant bits first data order.
///
/// For buffers where the pixel bit depth is a multiple of 8, the pixel data is
/// stored in most significant byte first order. For other bit depths, the pixel
/// data is packed into bytes from right to left with the least significant bits
/// used first within each byte.
#[derive(Copy, Clone, Eq, PartialEq, Ord, PartialOrd, Hash, Debug)]
pub enum BigEndianLsb0 {
    /// The only value of this type, which stands for the data order.
    BigEndianLsb0,
}

/// Raw data order.
pub trait DataOrder: private::Sealed {
    /// Alternate order.
    ///
    /// Internal use constant to simulate a type level enum.
    const IS_ALTERNATE_ORDER: bool;

    /// Whether this is the alternate order: the value of
    /// `IS_ALTERNATE_ORDER`.
    spec fn is_alternate_order() -> bool;

    /// `IS_ALTERNATE_ORDER` has the value that `is_alternate_order` gives.
    proof fn lemma_is_alternate_order()
        ensures
            Self::IS_ALTERNATE_ORDER == Self::is_alternate_order(),
    ;
}

impl DataOrder for LittleEndianMsb0 {
    const IS_ALTERNATE_ORDER: bool = false;

    open spec fn is_alternate_order() -> bool {
        false
    }

    proof fn lemma_is_alternate_order() {
    }
}

impl DataOrder for BigEndianLsb0 {
    const IS_ALTERNATE_ORDER: bool = true;

    open spec fn is_alternate_order() -> bool {
        true
    }

    proof fn lemma_is_alternate_order() {
    }
}

impl private::Sealed for LittleEndianMsb0 {

}

impl private::Sealed for BigEndianLsb0 {

}

} // verus!
