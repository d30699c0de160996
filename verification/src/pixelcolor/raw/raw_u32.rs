//! 32 bits per pixel raw data.

use super::layout::lemma_low_mask;
use super::private::Sealed;
use super::{load_store, DataOrder, OutOfBoundsError, RawData};
use vstd::prelude::*;
use vstd::std_specs::convert::FromSpecImpl;

verus! {

/// 32 bits per pixel raw data.
///
/// `RawU32` is internally stored in an `u32`. It can be constructed from an
/// [`u32`] by using the [`new`](Self::new) method or by calling
/// `RawU32::from(u32_value)`. To convert a `RawU32` back into a [`u32`] the
/// [`into_inner`](RawData::into_inner) method can be used.
///
/// See the [module-level documentation](super) for more information.
#[derive(Copy, Clone, Eq, PartialEq, Ord, PartialOrd, Hash, Debug, Structural)]
pub struct RawU32(u32);

impl View for RawU32 {
    type V = u32;

    /// The value that this raw data holds.
    closed spec fn view(&self) -> u32 {
        self.0
    }
}

impl RawU32 {
    /// The raw data that [`new`](Self::new) makes of `value`.
    pub closed spec fn spec_new(value: u32) -> Self {
        RawU32(value & 0xFFFF_FFFF)
    }

    /// Creates a new color from the least significant 32 bits of value.
    #[inline]
    pub fn new(value: u32) -> (raw: Self)
        ensures
            raw == Self::spec_new(value),
            raw@ == value & 0xFFFF_FFFF,
            raw@ == value,
    {
        proof {
            Self::lemma_new_is_masked(value);
        }
        RawU32(value & 0xFFFF_FFFF)
    }

    /// Creates a new color without masking the value: a `RawU32` has no unused
    /// bits.
    #[inline]
    pub(crate) fn new_unmasked(value: u32) -> (raw: Self)
        ensures
            raw@ == value,
    {
        RawU32(value)
    }

    /// What [`new`](Self::new) makes of a value, and what
    /// [`into_inner`](RawData::into_inner) then returns, holds every bit of
    /// the value: a `RawU32` has no unused bits.
    pub proof fn lemma_new_is_masked(value: u32)
        ensures
            Self::spec_new(value)@ == value & 0xFFFF_FFFF,
            Self::spec_new(value)@ == value,
    {
        assert(value & 0xFFFF_FFFF == value) by (bit_vector);
    }

    /// Two raw values that hold the same value are equal.
    pub proof fn lemma_equal_by_view(self, other: Self)
        requires
            self@ == other@,
        ensures
            self == other,
    {
    }
}

impl Default for RawU32 {
    /// The raw data whose bits are all zero.
    fn default() -> (raw: Self)
        ensures
            raw@ == 0,
    {
        RawU32(0)
    }
}

impl From<u32> for RawU32 {
    #[inline]
    fn from(value: u32) -> (raw: Self) {
        Self::new(value)
    }
}

impl FromSpecImpl<u32> for RawU32 {
    open spec fn obeys_from_spec() -> bool {
        true
    }

    open spec fn from_spec(value: u32) -> Self {
        Self::spec_new(value)
    }
}

impl Sealed for RawU32 {

}

impl RawData for RawU32 {
    type Storage = u32;

    const BITS_PER_PIXEL: usize = 32;

    const MASK: u32 = 0xFFFF_FFFF;

    open spec fn bits_per_pixel() -> int {
        32
    }

    open spec fn as_u32(&self) -> u32 {
        self@
    }

    open spec fn storage_as_u32(storage: u32) -> u32 {
        storage
    }

    proof fn lemma_constants() {
    }

    fn into_inner(self) -> (storage: u32)
        ensures
            storage == self@,
    {
        proof {
            lemma_low_mask(self.0, 32);
        }
        self.0
    }

    fn from_u32(value: u32) -> (raw: Self) {
        Self::new(value)
    }

    fn load<O: DataOrder>(buffer: &[u8], index: usize) -> (raw: Option<Self>) {
        proof {
            O::lemma_is_alternate_order();
        }
        match load_store::load(buffer, index, Self::BITS_PER_PIXEL, O::IS_ALTERNATE_ORDER) {
            Some(value) => Some(Self::new_unmasked(value)),
            None => None,
        }
    }

    fn store<O: DataOrder>(
        self,
        buffer: &mut [u8],
        index: usize,
    ) -> (result: Result<(), OutOfBoundsError>) {
        proof {
            O::lemma_is_alternate_order();
        }
        load_store::store(self.0, buffer, index, Self::BITS_PER_PIXEL, O::IS_ALTERNATE_ORDER)
    }
}

} // verus!
