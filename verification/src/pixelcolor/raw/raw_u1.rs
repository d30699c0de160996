//! 1 bit per pixel raw data.

use super::layout::lemma_low_mask;
use super::private::Sealed;
use super::{load_store, DataOrder, OutOfBoundsError, RawData};
use vstd::prelude::*;
use vstd::std_specs::convert::FromSpecImpl;

verus! {

/// 1 bit per pixel raw data.
///
/// `RawU1` is internally stored in an `u8`. It can be constructed from an
/// [`u8`] by using the [`new`](Self::new) method or by calling
/// `RawU1::from(u8_value)`. To convert a `RawU1` back into a [`u8`] the
/// [`into_inner`](RawData::into_inner) method can be used.
///
/// See the [module-level documentation](super) for more information.
#[derive(Copy, Clone, Eq, PartialEq, Ord, PartialOrd, Hash, Debug, Structural)]
pub struct RawU1(u8);

impl View for RawU1 {
    type V = u8;

    /// The value that this raw data holds.
    closed spec fn view(&self) -> u8 {
        self.0
    }
}

impl RawU1 {
    /// No bit above the lowest 1 bit is set.
    #[verifier::type_invariant]
    closed spec fn is_masked(self) -> bool {
        self.0 <= 0x01
    }

    /// The raw data that [`new`](Self::new) makes of `value`.
    pub closed spec fn spec_new(value: u8) -> Self {
        RawU1(value & 0x01)
    }

    /// Creates a new color from the least significant 1 bit of value.
    #[inline]
    pub fn new(value: u8) -> (raw: Self)
        ensures
            raw == Self::spec_new(value),
            raw@ == value & 0x01,
            raw@ <= 0x01,
    {
        proof {
            Self::lemma_new_is_masked(value);
        }
        RawU1(value & 0x01)
    }

    /// Creates a new color from a value that has no bit set above its lowest
    /// 1 bit.
    #[inline]
    pub(crate) fn new_unmasked(value: u8) -> (raw: Self)
        requires
            value <= 0x01,
        ensures
            raw@ == value,
    {
        RawU1(value)
    }

    /// What [`new`](Self::new) makes of a value, and what
    /// [`into_inner`](RawData::into_inner) then returns, holds the lowest
    /// 1 bit of the value and no other bit.
    pub proof fn lemma_new_is_masked(value: u8)
        ensures
            Self::spec_new(value)@ == value & 0x01,
            Self::spec_new(value)@ <= 0x01,
    {
        assert(value & 0x01 <= 0x01) by (bit_vector);
    }

    /// Two raw values that hold the same value are equal.
    pub proof fn lemma_equal_by_view(self, other: Self)
        requires
            self@ == other@,
        ensures
            self == other,
    {
    }
}

impl Default for RawU1 {
    /// The raw data whose bits are all zero.
    fn default() -> (raw: Self)
        ensures
            raw@ == 0,
    {
        RawU1(0)
    }
}

impl From<u8> for RawU1 {
    #[inline]
    fn from(value: u8) -> (raw: Self) {
        Self::new(value)
    }
}

impl FromSpecImpl<u8> for RawU1 {
    open spec fn obeys_from_spec() -> bool {
        true
    }

    open spec fn from_spec(value: u8) -> Self {
        Self::spec_new(value)
    }
}

impl Sealed for RawU1 {

}

impl RawData for RawU1 {
    type Storage = u8;

    const BITS_PER_PIXEL: usize = 1;

    const MASK: u8 = 0x01;

    open spec fn bits_per_pixel() -> int {
        1
    }

    open spec fn as_u32(&self) -> u32 {
        self@ as u32
    }

    open spec fn storage_as_u32(storage: u8) -> u32 {
        storage as u32
    }

    proof fn lemma_constants() {
    }

    fn into_inner(self) -> (storage: u8)
        ensures
            storage == self@,
    {
        proof {
            use_type_invariant(&self);
            lemma_low_mask(self.0 as u32, 1);
        }
        self.0
    }

    fn from_u32(value: u32) -> (raw: Self) {
        assert(((value as u8) & 0x01) as u32 == value & 0x01) by (bit_vector);
        Self::new(#[verifier::truncate] (value as u8))
    }

    fn load<O: DataOrder>(buffer: &[u8], index: usize) -> (raw: Option<Self>) {
        proof {
            O::lemma_is_alternate_order();
        }
        match load_store::load(buffer, index, Self::BITS_PER_PIXEL, O::IS_ALTERNATE_ORDER) {
            Some(value) => Some(Self::new_unmasked(value as u8)),
            None => None,
        }
    }

    fn store<O: DataOrder>(
        self,
        buffer: &mut [u8],
        index: usize,
    ) -> (result: Result<(), OutOfBoundsError>) {
        proof {
            O::lemma_is_alternate_order();
            use_type_invariant(&self);
        }
        load_store::store(self.0 as u32, buffer, index, Self::BITS_PER_PIXEL, O::IS_ALTERNATE_ORDER)
    }
}

} // verus!
