//! Loading pixels from and storing pixels into a byte buffer.
//!
//! The functions of this module take the width of a pixel and the data order
//! as arguments, and the value of a pixel as a `u32`. The raw data types call
//! them with their own width.

use super::layout::{
    bit_shift, byte_of, in_bounds, is_packed_width, is_pixel_width, lemma_in_bounds_by_bytes,
    lemma_store_keeps_other_pixels, lemma_store_then_load, loaded, low_mask, stored,
};
use super::{store_result, OutOfBoundsError};
use vstd::prelude::*;

verus! {

/// The mask of a packed pixel width.
fn packed_mask(bits: usize) -> (mask: u8)
    requires
        is_packed_width(bits as int),
    ensures
        mask == low_mask(bits as int),
{
    if bits == 1 {
        0x1
    } else if bits == 2 {
        0x3
    } else {
        0xF
    }
}

/// The shift of the pixel `index` of a packed width inside its byte.
fn packed_shift(index: usize, bits: usize, alternate: bool) -> (shift: u8)
    requires
        is_packed_width(bits as int),
    ensures
        shift == bit_shift(index as int, bits as int, alternate),
        shift + bits <= 8,
{
    let slot: usize = index % (8 / bits);
    let low: usize = slot * bits;
    if alternate {
        low as u8
    } else {
        (8 - bits - low) as u8
    }
}

/// Loads the pixel `index` of a packed width.
fn load_packed(buffer: &[u8], index: usize, bits: usize, alternate: bool) -> (value: Option<u32>)
    requires
        is_packed_width(bits as int),
    ensures
        value == loaded(buffer@, index as int, bits as int, alternate),
        value matches Some(v) ==> v <= low_mask(bits as int),
{
    let at: usize = index / (8 / bits);
    proof {
        lemma_in_bounds_by_bytes(buffer@.len() as int, index as int, bits as int);
    }
    if at >= buffer.len() {
        return None;
    }
    let shift: u8 = packed_shift(index, bits, alternate);
    let mask: u8 = packed_mask(bits);
    let byte: u8 = buffer[at];
    assert((byte >> shift) & mask <= mask) by (bit_vector);
    Some(((byte >> shift) & mask) as u32)
}

/// Stores the lowest `bits` bits of `value` as the pixel `index` of a packed
/// width.
fn store_packed(
    value: u8,
    buffer: &mut [u8],
    index: usize,
    bits: usize,
    alternate: bool,
) -> (result: Result<(), OutOfBoundsError>)
    requires
        is_packed_width(bits as int),
    ensures
        result == store_result(in_bounds(old(buffer)@.len() as int, index as int, bits as int)),
        final(buffer)@ == stored(old(buffer)@, index as int, bits as int, alternate, value as u32),
{
    let at: usize = index / (8 / bits);
    proof {
        lemma_in_bounds_by_bytes(buffer@.len() as int, index as int, bits as int);
    }
    if at >= buffer.len() {
        return Err(OutOfBoundsError);
    }
    let shift: u8 = packed_shift(index, bits, alternate);
    let mask: u8 = packed_mask(bits);
    let byte: u8 = buffer[at];
    buffer[at] = (byte & !(mask << shift)) | ((value & mask) << shift);
    Ok(())
}

/// A pixel of `n` whole bytes lies inside a buffer exactly when its index is
/// below the number of such pixels that fit.
proof fn lemma_bytes_in_bounds(len: int, index: int, n: int)
    requires
        1 <= n <= 4,
        0 <= index,
        0 <= len,
    ensures
        in_bounds(len, index, 8 * n) <==> index < len / n,
        index < len / n ==> index * n + n <= len,
{
    lemma_in_bounds_by_bytes(len, index, 8 * n);
    if n == 1 {
        assert(index < len / 1 <==> index * 1 + 1 <= len);
    } else if n == 2 {
        assert(index < len / 2 <==> index * 2 + 2 <= len);
    } else if n == 3 {
        assert(index < len / 3 <==> index * 3 + 3 <= len);
    } else {
        assert(index < len / 4 <==> index * 4 + 4 <= len);
    }
}

/// The place among the `n` bytes of a pixel of the byte of significance `k`:
/// the least significant byte is the first in the default order and the last
/// in the alternate order.
fn byte_position(k: usize, n: usize, alternate: bool) -> (at: usize)
    requires
        k < n,
    ensures
        at == (if alternate {
            n - 1 - k
        } else {
            k as int
        }),
{
    if alternate {
        n - 1 - k
    } else {
        k
    }
}

/// The byte of `value` of significance `k`.
pub(super) fn significant_byte(value: u32, k: u32) -> (byte: u8)
    requires
        k < 4,
    ensures
        byte == byte_of(value, k as int),
{
    ((value >> (8 * k)) & 0xFF) as u8
}

/// Loads the pixel `index` of `n` whole bytes.
fn load_bytes(buffer: &[u8], index: usize, n: usize, alternate: bool) -> (value: Option<u32>)
    requires
        1 <= n <= 4,
    ensures
        value == loaded(buffer@, index as int, 8 * n, alternate),
        value matches Some(v) ==> v <= low_mask(8 * n),
{
    proof {
        lemma_bytes_in_bounds(buffer@.len() as int, index as int, n as int);
    }
    if index >= buffer.len() / n {
        return None;
    }
    let start: usize = index * n;
    let b0: u32 = buffer[start + byte_position(0, n, alternate)] as u32;
    let b1: u32 = if n > 1 {
        buffer[start + byte_position(1, n, alternate)] as u32
    } else {
        0
    };
    let b2: u32 = if n > 2 {
        buffer[start + byte_position(2, n, alternate)] as u32
    } else {
        0
    };
    let b3: u32 = if n > 3 {
        buffer[start + byte_position(3, n, alternate)] as u32
    } else {
        0
    };
    assert(b0 < 0x100 && b1 < 0x100 && b2 < 0x100 ==> {
        &&& b0 | (0u32 << 8) | (0u32 << 16) | (0u32 << 24) <= 0xFF
        &&& b0 | (b1 << 8) | (0u32 << 16) | (0u32 << 24) <= 0xFFFF
        &&& b0 | (b1 << 8) | (b2 << 16) | (0u32 << 24) <= 0xFF_FFFF
    }) by (bit_vector);
    Some(b0 | (b1 << 8) | (b2 << 16) | (b3 << 24))
}

/// Stores the lowest `n` bytes of `value` as the pixel `index` of `n` whole
/// bytes.
fn store_bytes(
    value: u32,
    buffer: &mut [u8],
    index: usize,
    n: usize,
    alternate: bool,
) -> (result: Result<(), OutOfBoundsError>)
    requires
        1 <= n <= 4,
    ensures
        result == store_result(in_bounds(old(buffer)@.len() as int, index as int, 8 * n)),
        final(buffer)@ == stored(old(buffer)@, index as int, 8 * n, alternate, value),
{
    proof {
        lemma_bytes_in_bounds(buffer@.len() as int, index as int, n as int);
    }
    if index >= buffer.len() / n {
        return Err(OutOfBoundsError);
    }
    let start: usize = index * n;
    buffer[start + byte_position(0, n, alternate)] = significant_byte(value, 0);
    if n > 1 {
        buffer[start + byte_position(1, n, alternate)] = significant_byte(value, 1);
    }
    if n > 2 {
        buffer[start + byte_position(2, n, alternate)] = significant_byte(value, 2);
    }
    if n > 3 {
        buffer[start + byte_position(3, n, alternate)] = significant_byte(value, 3);
    }
    Ok(())
}

/// Loads the pixel `index` from `buffer`, for pixels of width `bits`.
///
/// Returns `None` if the pixel does not lie inside the buffer. A value that
/// is returned has no bit set above its lowest `bits` bits.
pub(super) fn load(
    buffer: &[u8],
    index: usize,
    bits: usize,
    alternate: bool,
) -> (value: Option<u32>)
    requires
        is_pixel_width(bits as int),
    ensures
        value == loaded(buffer@, index as int, bits as int, alternate),
        value matches Some(v) ==> v <= low_mask(bits as int),
{
    if bits < 8 {
        load_packed(buffer, index, bits, alternate)
    } else {
        load_bytes(buffer, index, bits / 8, alternate)
    }
}

/// Stores the lowest `bits` bits of `value` as the pixel `index` of `buffer`,
/// for pixels of width `bits`.
///
/// Returns an error, and leaves the buffer as it is, if the pixel does not lie
/// inside the buffer. A pixel that was stored reads back as the value, if the
/// value has no bit set above its lowest `bits` bits, and every other pixel
/// reads as before.
pub(super) fn store(
    value: u32,
    buffer: &mut [u8],
    index: usize,
    bits: usize,
    alternate: bool,
) -> (result: Result<(), OutOfBoundsError>)
    requires
        is_pixel_width(bits as int),
    ensures
        result == store_result(in_bounds(old(buffer)@.len() as int, index as int, bits as int)),
        final(buffer)@ == stored(old(buffer)@, index as int, bits as int, alternate, value),
        final(buffer)@.len() == old(buffer)@.len(),
        result.is_ok() && value <= low_mask(bits as int) ==> loaded(
            final(buffer)@,
            index as int,
            bits as int,
            alternate,
        ) == Some(value),
        forall|other: int|
            0 <= other && other != index ==> #[trigger] loaded(
                final(buffer)@,
                other,
                bits as int,
                alternate,
            ) == loaded(old(buffer)@, other, bits as int, alternate),
{
    let result = if bits < 8 {
        store_packed(#[verifier::truncate] (value as u8), buffer, index, bits, alternate)
    } else {
        store_bytes(value, buffer, index, bits / 8, alternate)
    };
    proof {
        if in_bounds(old(buffer)@.len() as int, index as int, bits as int) {
            lemma_store_then_load(old(buffer)@, index as int, bits as int, alternate, value);
        }
        assert forall|other: int| 0 <= other && other != index implies #[trigger] loaded(
            buffer@,
            other,
            bits as int,
            alternate,
        ) == loaded(old(buffer)@, other, bits as int, alternate) by {
            lemma_store_keeps_other_pixels(
                old(buffer)@,
                index as int,
                other,
                bits as int,
                alternate,
                value,
            );
        }
    }
    result
}

} // verus!
