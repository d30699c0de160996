//! The layout of packed pixels in a byte buffer.
//!
//! The functions of this module are the mathematical model of a packed
//! framebuffer: a sequence of bytes that holds pixels of one width, numbered
//! from zero, in one of two data orders. A pixel of 1, 2 or 4 bits is a field
//! of one byte, which it shares with other pixels. A pixel of 8, 16, 24 or 32
//! bits owns 1, 2, 3 or 4 whole bytes.
//!
//! A data order is given here as a `bool`: `false` for little endian, most
//! significant bits first, and `true` for the alternate order, big endian,
//! least significant bits first. The value of a pixel is given as a `u32`.
//!
//! The proof functions of this module state what holds of every buffer:
//! a pixel that was set reads back as it was set, and no other pixel and no
//! other byte has changed.

use vstd::prelude::*;

verus! {

/// Whether `bits` is the width of a pixel that shares its byte with others.
pub open spec fn is_packed_width(bits: int) -> bool {
    bits == 1 || bits == 2 || bits == 4
}

/// Whether `bits` is the width of a pixel that owns whole bytes.
pub open spec fn is_byte_width(bits: int) -> bool {
    bits == 8 || bits == 16 || bits == 24 || bits == 32
}

/// Whether `bits` is one of the seven supported pixel widths.
pub open spec fn is_pixel_width(bits: int) -> bool {
    is_packed_width(bits) || is_byte_width(bits)
}

/// The 32-bit value whose lowest `bits` bits are set and whose other bits are
/// zero, for each supported width.
pub open spec fn low_mask(bits: int) -> u32 {
    if bits == 1 {
        0x1
    } else if bits == 2 {
        0x3
    } else if bits == 4 {
        0xF
    } else if bits == 8 {
        0xFF
    } else if bits == 16 {
        0xFFFF
    } else if bits == 24 {
        0xFF_FFFF
    } else {
        0xFFFF_FFFF
    }
}

/// Whether the pixel `index` of width `bits` lies inside a buffer of `len`
/// bytes: its bits are those from `index * bits` up to, but not including,
/// `(index + 1) * bits`.
pub open spec fn in_bounds(len: int, index: int, bits: int) -> bool {
    (index + 1) * bits <= len * 8
}

/// The number of bytes that a pixel of width `bits` has a part in: one byte
/// for a packed width, and `bits / 8` bytes otherwise.
pub open spec fn byte_count(bits: int) -> int {
    if bits < 8 {
        1
    } else {
        bits / 8
    }
}

/// The index of the first byte that the pixel `index` has a part in.
///
/// Eight, four or two pixels of a packed width share a byte; a pixel of
/// another width owns `bits / 8` bytes.
pub open spec fn first_byte(index: int, bits: int) -> int {
    if bits == 1 {
        index / 8
    } else if bits == 2 {
        index / 4
    } else if bits == 4 {
        index / 2
    } else {
        index * (bits / 8)
    }
}

/// The place of the pixel `index` of a packed width among the pixels of its
/// byte, counted from zero.
pub open spec fn slot(index: int, bits: int) -> int {
    if bits == 1 {
        index % 8
    } else if bits == 2 {
        index % 4
    } else {
        index % 2
    }
}

/// The number of bits between the lowest bit of a byte and the lowest bit of
/// the pixel `index` of a packed width in that byte.
///
/// In the default order the first pixel of a byte has its highest bits, in the
/// alternate order its lowest.
pub open spec fn bit_shift(index: int, bits: int, alternate: bool) -> int {
    if alternate {
        slot(index, bits) * bits
    } else {
        8 - bits - slot(index, bits) * bits
    }
}

/// Whether `mask` is the mask of a field of `bits` bits, for a packed width,
/// and a field of that width that starts `shift` bits above the lowest bit
/// of a byte ends inside the byte.
pub open spec fn is_field(shift: u8, bits: u8, mask: u8) -> bool {
    &&& (bits == 1 && mask == 0x1) || (bits == 2 && mask == 0x3) || (bits == 4 && mask == 0xF)
    &&& shift + bits <= 8
}

/// The field of `byte` under `mask` that starts `shift` bits above the lowest
/// bit.
pub open spec fn field(byte: u8, shift: u8, mask: u8) -> u8 {
    (byte >> shift) & mask
}

/// `byte` with the field under `mask` that starts `shift` bits above the
/// lowest bit replaced by the bits of `value` under `mask`.
pub open spec fn with_field(byte: u8, shift: u8, mask: u8, value: u8) -> u8 {
    (byte & !(mask << shift)) | ((value & mask) << shift)
}

/// The byte of `value` of significance `k`: its bits `8 * k` to `8 * k + 7`.
pub open spec fn byte_of(value: u32, k: int) -> u8 {
    ((value >> ((8 * k) as u32)) & 0xFF) as u8
}

/// The `n` least significant bytes of `value`, least significant first.
pub open spec fn le_bytes(value: u32, n: int) -> Seq<u8> {
    Seq::new(n as nat, |k: int| byte_of(value, k))
}

/// The `n` least significant bytes of `value`, most significant first.
pub open spec fn be_bytes(value: u32, n: int) -> Seq<u8> {
    Seq::new(n as nat, |k: int| byte_of(value, n - 1 - k))
}

/// The `n` least significant bytes of `value` in the given data order.
pub open spec fn ordered_bytes(value: u32, n: int, alternate: bool) -> Seq<u8> {
    if alternate {
        be_bytes(value, n)
    } else {
        le_bytes(value, n)
    }
}

/// The byte `k` of `bytes` as a 32-bit value, and zero where `bytes` has no
/// such byte.
pub open spec fn byte_or_zero(bytes: Seq<u8>, k: int) -> u32 {
    if 0 <= k < bytes.len() {
        bytes[k] as u32
    } else {
        0
    }
}

/// The value that up to four bytes stand for, least significant byte first.
pub open spec fn from_le_bytes(bytes: Seq<u8>) -> u32 {
    byte_or_zero(bytes, 0) | (byte_or_zero(bytes, 1) << 8) | (byte_or_zero(bytes, 2) << 16) | (
    byte_or_zero(bytes, 3) << 24)
}

/// The value that up to four bytes stand for, most significant byte first.
pub open spec fn from_be_bytes(bytes: Seq<u8>) -> u32 {
    let last: int = bytes.len() - 1;
    byte_or_zero(bytes, last) | (byte_or_zero(bytes, last - 1) << 8) | (byte_or_zero(
        bytes,
        last - 2,
    ) << 16) | (byte_or_zero(bytes, last - 3) << 24)
}

/// The value that up to four bytes stand for in the given data order.
pub open spec fn from_ordered_bytes(bytes: Seq<u8>, alternate: bool) -> u32 {
    if alternate {
        from_be_bytes(bytes)
    } else {
        from_le_bytes(bytes)
    }
}

/// The value of the pixel `index` in `buffer`, for pixels of width `bits`.
pub open spec fn pixel_at(buffer: Seq<u8>, index: int, bits: int, alternate: bool) -> u32 {
    let first: int = first_byte(index, bits);
    if bits < 8 {
        field(buffer[first], bit_shift(index, bits, alternate) as u8, low_mask(bits) as u8) as u32
    } else {
        from_ordered_bytes(buffer.subrange(first, first + byte_count(bits)), alternate)
    }
}

/// `buffer` after the pixel `index` has been set to the lowest `bits` bits of
/// `value`, for pixels of width `bits`.
pub open spec fn with_pixel(
    buffer: Seq<u8>,
    index: int,
    bits: int,
    alternate: bool,
    value: u32,
) -> Seq<u8> {
    let first: int = first_byte(index, bits);
    if bits < 8 {
        buffer.update(
            first,
            with_field(
                buffer[first],
                bit_shift(index, bits, alternate) as u8,
                low_mask(bits) as u8,
                value as u8,
            ),
        )
    } else {
        let bytes = ordered_bytes(value, byte_count(bits), alternate);
        Seq::new(
            buffer.len(),
            |at: int|
                if first <= at < first + byte_count(bits) {
                    bytes[at - first]
                } else {
                    buffer[at]
                },
        )
    }
}

/// What loading the pixel `index` from `buffer` gives: the value of the pixel
/// if it lies inside the buffer, and nothing otherwise.
pub open spec fn loaded(buffer: Seq<u8>, index: int, bits: int, alternate: bool) -> Option<u32> {
    if in_bounds(buffer.len() as int, index, bits) {
        Some(pixel_at(buffer, index, bits, alternate))
    } else {
        None
    }
}

/// What storing `value` as the pixel `index` makes of `buffer`: the buffer
/// with that pixel set if the pixel lies inside the buffer, and the buffer as
/// it is otherwise.
pub open spec fn stored(
    buffer: Seq<u8>,
    index: int,
    bits: int,
    alternate: bool,
    value: u32,
) -> Seq<u8> {
    if in_bounds(buffer.len() as int, index, bits) {
        with_pixel(buffer, index, bits, alternate, value)
    } else {
        buffer
    }
}

/// A pixel lies inside a buffer exactly when every byte that it has a part in
/// does.
pub proof fn lemma_in_bounds_by_bytes(len: int, index: int, bits: int)
    requires
        is_pixel_width(bits),
        0 <= index,
    ensures
        0 <= first_byte(index, bits),
        in_bounds(len, index, bits) <==> first_byte(index, bits) + byte_count(bits) <= len,
{
    if bits == 8 {
        assert(in_bounds(len, index, 8) <==> index * 1 + 1 <= len);
    } else if bits == 16 {
        assert(in_bounds(len, index, 16) <==> index * 2 + 2 <= len);
    } else if bits == 24 {
        assert(in_bounds(len, index, 24) <==> index * 3 + 3 <= len);
    } else if bits == 32 {
        assert(in_bounds(len, index, 32) <==> index * 4 + 4 <= len);
    }
}

/// The field of a pixel of a packed width lies inside its byte, and the fields
/// of two pixels that share a byte do not overlap.
pub proof fn lemma_bit_shift(index: int, other: int, bits: int, alternate: bool)
    requires
        is_packed_width(bits),
        0 <= index,
        0 <= other,
    ensures
        0 <= bit_shift(index, bits, alternate) <= 8 - bits,
        0 <= bit_shift(other, bits, alternate) <= 8 - bits,
        index != other && first_byte(index, bits) == first_byte(other, bits) ==> (bit_shift(
            index,
            bits,
            alternate,
        ) + bits <= bit_shift(other, bits, alternate) || bit_shift(other, bits, alternate) + bits
            <= bit_shift(index, bits, alternate)),
{
}

/// A field that was written reads back as the bits of the value under the
/// mask.
pub proof fn lemma_field_of_with_field(byte: u8, shift: u8, bits: u8, mask: u8, value: u8)
    by (bit_vector)
    requires
        is_field(shift, bits, mask),
    ensures
        field(with_field(byte, shift, mask, value), shift, mask) == value & mask,
{
}

/// A field that does not overlap a field that was written reads back as
/// before.
pub proof fn lemma_field_of_with_other_field(
    byte: u8,
    shift: u8,
    other: u8,
    bits: u8,
    mask: u8,
    value: u8,
)
    by (bit_vector)
    requires
        is_field(shift, bits, mask),
        is_field(other, bits, mask),
        shift + bits <= other || other + bits <= shift,
    ensures
        field(with_field(byte, shift, mask, value), other, mask) == field(byte, other, mask),
{
}

/// The bytes of a value in either data order stand for the lowest `n` bytes
/// of that value.
pub proof fn lemma_from_ordered_bytes(value: u32, n: int, alternate: bool)
    requires
        1 <= n <= 4,
    ensures
        ordered_bytes(value, n, alternate).len() == n,
        from_ordered_bytes(ordered_bytes(value, n, alternate), alternate) == value & low_mask(
            8 * n,
        ),
{
    let b0: u8 = byte_of(value, 0);
    let b1: u8 = byte_of(value, 1);
    let b2: u8 = byte_of(value, 2);
    let b3: u8 = byte_of(value, 3);
    assert({
        &&& b0 == ((value >> 0u32) & 0xFF) as u8
        &&& b1 == ((value >> 8u32) & 0xFF) as u8
        &&& b2 == ((value >> 16u32) & 0xFF) as u8
        &&& b3 == ((value >> 24u32) & 0xFF) as u8
    } ==> {
        &&& (b0 as u32) | (0u32 << 8) | (0u32 << 16) | (0u32 << 24) == value & 0xFF
        &&& (b0 as u32) | ((b1 as u32) << 8) | (0u32 << 16) | (0u32 << 24) == value & 0xFFFF
        &&& (b0 as u32) | ((b1 as u32) << 8) | ((b2 as u32) << 16) | (0u32 << 24) == value
            & 0xFF_FFFF
        &&& (b0 as u32) | ((b1 as u32) << 8) | ((b2 as u32) << 16) | ((b3 as u32) << 24) == value
            & 0xFFFF_FFFF
    }) by (bit_vector);
}

/// A value that has no bit set above its lowest `bits` bits is what is left
/// of it under the mask of that width.
pub proof fn lemma_low_mask(value: u32, bits: int)
    requires
        is_pixel_width(bits),
        value <= low_mask(bits),
    ensures
        value & low_mask(bits) == value,
{
    let mask: u32 = low_mask(bits);
    assert(value <= mask && (mask == 0x1 || mask == 0x3 || mask == 0xF || mask == 0xFF || mask
        == 0xFFFF || mask == 0xFF_FFFF || mask == 0xFFFF_FFFF) ==> value & mask == value)
        by (bit_vector);
}

/// A pixel that was set reads back as it was set: it holds the lowest `bits`
/// bits of the value, so a value that has no other bits is read back
/// unchanged. The buffer keeps its length.
pub proof fn lemma_store_then_load(
    buffer: Seq<u8>,
    index: int,
    bits: int,
    alternate: bool,
    value: u32,
)
    requires
        is_pixel_width(bits),
        0 <= index,
        in_bounds(buffer.len() as int, index, bits),
    ensures
        with_pixel(buffer, index, bits, alternate, value).len() == buffer.len(),
        pixel_at(with_pixel(buffer, index, bits, alternate, value), index, bits, alternate)
            == value & low_mask(bits),
        value <= low_mask(bits) ==> loaded(
            stored(buffer, index, bits, alternate, value),
            index,
            bits,
            alternate,
        ) == Some(value),
{
    let first: int = first_byte(index, bits);
    lemma_in_bounds_by_bytes(buffer.len() as int, index, bits);
    if bits < 8 {
        let shift: u8 = bit_shift(index, bits, alternate) as u8;
        let mask: u8 = low_mask(bits) as u8;
        lemma_field_of_with_field(buffer[first], shift, bits as u8, mask, value as u8);
        assert((mask == 0x1 || mask == 0x3 || mask == 0xF) ==> ((value as u8) & mask) as u32
            == value & (mask as u32)) by (bit_vector);
    } else {
        lemma_from_ordered_bytes(value, byte_count(bits), alternate);
    }
    if value <= low_mask(bits) {
        lemma_low_mask(value, bits);
    }
}

/// Setting one pixel changes no other: every other pixel reads as it did
/// before, also one that shares a byte with the pixel that was set.
pub proof fn lemma_store_keeps_other_pixels(
    buffer: Seq<u8>,
    index: int,
    other: int,
    bits: int,
    alternate: bool,
    value: u32,
)
    requires
        is_pixel_width(bits),
        0 <= index,
        0 <= other,
        other != index,
    ensures
        loaded(stored(buffer, index, bits, alternate, value), other, bits, alternate) == loaded(
            buffer,
            other,
            bits,
            alternate,
        ),
{
    if in_bounds(buffer.len() as int, index, bits) && in_bounds(buffer.len() as int, other, bits) {
        let first: int = first_byte(index, bits);
        let other_first: int = first_byte(other, bits);
        lemma_in_bounds_by_bytes(buffer.len() as int, other, bits);
        if bits < 8 {
            if first == other_first {
                lemma_bit_shift(index, other, bits, alternate);
                lemma_field_of_with_other_field(
                    buffer[first],
                    bit_shift(index, bits, alternate) as u8,
                    bit_shift(other, bits, alternate) as u8,
                    bits as u8,
                    low_mask(bits) as u8,
                    value as u8,
                );
            }
        } else {
            let n: int = byte_count(bits);
            assert(other < index ==> other_first + n <= first) by (nonlinear_arith)
                requires
                    other_first == other * n,
                    first == index * n,
                    n > 0,
            ;
            assert(index < other ==> first + n <= other_first) by (nonlinear_arith)
                requires
                    other_first == other * n,
                    first == index * n,
                    n > 0,
            ;
        }
    }
}

/// Setting a pixel changes no byte but those that the pixel has a part in.
pub proof fn lemma_store_keeps_other_bytes(
    buffer: Seq<u8>,
    index: int,
    bits: int,
    alternate: bool,
    value: u32,
    at: int,
)
    requires
        is_pixel_width(bits),
        0 <= index,
        0 <= at < buffer.len(),
        at < first_byte(index, bits) || first_byte(index, bits) + byte_count(bits) <= at,
    ensures
        stored(buffer, index, bits, alternate, value)[at] == buffer[at],
{
}

} // verus!
