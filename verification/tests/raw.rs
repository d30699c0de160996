use embedded_graphics::pixelcolor::raw::{
    BigEndianLsb0, DataOrder, LittleEndianMsb0, OutOfBoundsError, RawData, RawU1, RawU16, RawU2,
    RawU24, RawU32, RawU4, RawU8, ToBytes,
};

#[test]
#[allow(deprecated)]
fn upper_bits_are_masked() {
    assert_eq!(RawU1::new(u8::max_value()).into_inner(), 0x1);
    assert_eq!(RawU2::new(u8::max_value()).into_inner(), 0x3);
    assert_eq!(RawU4::new(u8::max_value()).into_inner(), 0xF);
    assert_eq!(RawU24::new(u32::max_value()).into_inner(), 0xFFFFFF);
}

#[test]
fn new_keeps_the_bits_under_the_mask() {
    assert_eq!(RawU1::new(0xFF), RawU1::new(0x1));
    assert_eq!(RawU2::new(0xFF), RawU2::new(0x3));
    assert_eq!(RawU4::new(0xFF), RawU4::new(0xF));
    assert_eq!(RawU24::new(0xFFFF_FFFF), RawU24::new(0xFF_FFFF));
    assert_eq!(RawU1::new(0b1010_0110).into_inner(), 0);
    assert_eq!(RawU2::new(0b1010_0110).into_inner(), 0b10);
    assert_eq!(RawU4::new(0b1010_0110).into_inner(), 0b0110);
    assert_eq!(RawU8::new(0b1010_0110).into_inner(), 0b1010_0110);
    assert_eq!(RawU16::new(0xA5C3).into_inner(), 0xA5C3);
    assert_eq!(RawU24::new(0x9A_BC_DE_F0).into_inner(), 0xBC_DE_F0);
    assert_eq!(RawU32::new(0x9A_BC_DE_F0).into_inner(), 0x9A_BC_DE_F0);
}

#[test]
fn new_then_into_inner_is_the_masked_value() {
    for v in 0..=u8::MAX {
        assert_eq!(RawU1::new(v).into_inner(), v & 0x1);
        assert_eq!(RawU2::new(v).into_inner(), v & 0x3);
        assert_eq!(RawU4::new(v).into_inner(), v & 0xF);
        assert_eq!(RawU8::new(v).into_inner(), v);
    }
    for v in [0u32, 1, 0xFFFF, 0x1_0000, 0xFF_FFFF, 0x100_0000, 0x1234_5678, u32::MAX] {
        assert_eq!(RawU16::new(v as u16).into_inner(), v as u16);
        assert_eq!(RawU24::new(v).into_inner(), v & 0xFF_FFFF);
        assert_eq!(RawU32::new(v).into_inner(), v);
    }
}

#[test]
fn constants_of_each_width() {
    assert_eq!(RawU1::BITS_PER_PIXEL, 1);
    assert_eq!(RawU2::BITS_PER_PIXEL, 2);
    assert_eq!(RawU4::BITS_PER_PIXEL, 4);
    assert_eq!(RawU8::BITS_PER_PIXEL, 8);
    assert_eq!(RawU16::BITS_PER_PIXEL, 16);
    assert_eq!(RawU24::BITS_PER_PIXEL, 24);
    assert_eq!(RawU32::BITS_PER_PIXEL, 32);
    assert_eq!(RawU1::MASK, 0x1);
    assert_eq!(RawU2::MASK, 0x3);
    assert_eq!(RawU4::MASK, 0xF);
    assert_eq!(RawU8::MASK, 0xFF);
    assert_eq!(RawU16::MASK, 0xFFFF);
    assert_eq!(RawU24::MASK, 0xFF_FFFF);
    assert_eq!(RawU32::MASK, 0xFFFF_FFFF);
    assert!(!LittleEndianMsb0::IS_ALTERNATE_ORDER);
    assert!(BigEndianLsb0::IS_ALTERNATE_ORDER);
}

#[test]
fn from_storage_is_new() {
    assert_eq!(RawU1::from(0xFF), RawU1::new(0xFF));
    assert_eq!(RawU2::from(0x06), RawU2::new(0x02));
    assert_eq!(RawU4::from(0x37).into_inner(), 0x7);
    assert_eq!(RawU8::from(0x37).into_inner(), 0x37);
    assert_eq!(RawU16::from(0x1234).into_inner(), 0x1234);
    assert_eq!(RawU24::from(0x1234_5678).into_inner(), 0x34_5678);
    assert_eq!(RawU32::from(0x1234_5678).into_inner(), 0x1234_5678);
    let raw: RawU4 = 0xABu8.into();
    assert_eq!(raw.into_inner(), 0xB);
}

#[test]
fn from_u32_truncates_then_masks() {
    assert_eq!(RawU1::from_u32(0xFFFF_FFFF).into_inner(), 0x1);
    assert_eq!(RawU1::from_u32(0xFFFF_FFFE).into_inner(), 0x0);
    assert_eq!(RawU2::from_u32(0x1234_5677).into_inner(), 0x3);
    assert_eq!(RawU4::from_u32(0xABCD).into_inner(), 0xD);
    assert_eq!(RawU8::from_u32(0x1234).into_inner(), 0x34);
    assert_eq!(RawU8::from_u32(0x100).into_inner(), 0x00);
    assert_eq!(RawU16::from_u32(0x1234_5678).into_inner(), 0x5678);
    assert_eq!(RawU16::from_u32(0x1_0000).into_inner(), 0);
    assert_eq!(RawU24::from_u32(0xFF12_3456).into_inner(), 0x12_3456);
    assert_eq!(RawU32::from_u32(0xFF12_3456).into_inner(), 0xFF12_3456);
}

#[test]
fn default_is_zero() {
    assert_eq!(RawU1::default().into_inner(), 0);
    assert_eq!(RawU2::default().into_inner(), 0);
    assert_eq!(RawU4::default().into_inner(), 0);
    assert_eq!(RawU8::default().into_inner(), 0);
    assert_eq!(RawU16::default().into_inner(), 0);
    assert_eq!(RawU24::default().into_inner(), 0);
    assert_eq!(RawU32::default().into_inner(), 0);
}

#[test]
fn raw_values_are_ordered_by_their_value() {
    assert!(RawU4::new(3) < RawU4::new(4));
    assert!(RawU24::new(0x01_0000) > RawU24::new(0x00_FFFF));
    assert_eq!(RawU16::new(7), RawU16::new(7));
    assert_ne!(RawU1::new(0), RawU1::new(1));
}

#[test]
fn load_4bit_little_endian_msb0() {
    let buffer = [0b0001_0010, 0b0100_1111];
    assert_eq!(RawU4::load::<LittleEndianMsb0>(&buffer, 0), Some(RawU4::new(1)));
    assert_eq!(RawU4::load::<LittleEndianMsb0>(&buffer, 1), Some(RawU4::new(2)));
    assert_eq!(RawU4::load::<LittleEndianMsb0>(&buffer, 2), Some(RawU4::new(4)));
    assert_eq!(RawU4::load::<LittleEndianMsb0>(&buffer, 3), Some(RawU4::new(15)));
    assert_eq!(RawU4::load::<LittleEndianMsb0>(&buffer, 4), None);
}

#[test]
fn load_4bit_big_endian_lsb0() {
    let buffer = [0b0001_0010, 0b0100_1111];
    assert_eq!(RawU4::load::<BigEndianLsb0>(&buffer, 0), Some(RawU4::new(2)));
    assert_eq!(RawU4::load::<BigEndianLsb0>(&buffer, 1), Some(RawU4::new(1)));
    assert_eq!(RawU4::load::<BigEndianLsb0>(&buffer, 2), Some(RawU4::new(15)));
    assert_eq!(RawU4::load::<BigEndianLsb0>(&buffer, 3), Some(RawU4::new(4)));
    assert_eq!(RawU4::load::<BigEndianLsb0>(&buffer, 4), None);
}

#[test]
fn load_24bit_big_endian() {
    let buffer = [0x11, 0x22, 0x33];
    let raw = RawU24::load::<BigEndianLsb0>(&buffer, 0).unwrap();
    assert_eq!(raw.into_inner(), 0x112233);
    assert_eq!(RawU24::load::<BigEndianLsb0>(&buffer, 1), None);
}

#[test]
fn load_24bit_little_endian() {
    let buffer = [0x11, 0x22, 0x33, 0x44, 0x55, 0x66, 0x77];
    assert_eq!(RawU24::load::<LittleEndianMsb0>(&buffer, 0).unwrap().into_inner(), 0x332211);
    assert_eq!(RawU24::load::<LittleEndianMsb0>(&buffer, 1).unwrap().into_inner(), 0x665544);
    assert_eq!(RawU24::load::<LittleEndianMsb0>(&buffer, 2), None);
    assert_eq!(RawU24::load::<BigEndianLsb0>(&buffer, 1).unwrap().into_inner(), 0x445566);
}

#[test]
fn load_1bit_in_both_orders() {
    let buffer = [0b1000_0010, 0b0000_0001];
    let msb0: Vec<u8> = (0..16)
        .map(|i| RawU1::load::<LittleEndianMsb0>(&buffer, i).unwrap().into_inner())
        .collect();
    assert_eq!(msb0, vec![1, 0, 0, 0, 0, 0, 1, 0, 0, 0, 0, 0, 0, 0, 0, 1]);
    let lsb0: Vec<u8> = (0..16)
        .map(|i| RawU1::load::<BigEndianLsb0>(&buffer, i).unwrap().into_inner())
        .collect();
    assert_eq!(lsb0, vec![0, 1, 0, 0, 0, 0, 0, 1, 1, 0, 0, 0, 0, 0, 0, 0]);
    assert_eq!(RawU1::load::<LittleEndianMsb0>(&buffer, 16), None);
    assert_eq!(RawU1::load::<BigEndianLsb0>(&buffer, 16), None);
}

#[test]
fn load_2bit_in_both_orders() {
    let buffer = [0b00_01_10_11];
    let msb0: Vec<u8> = (0..4)
        .map(|i| RawU2::load::<LittleEndianMsb0>(&buffer, i).unwrap().into_inner())
        .collect();
    assert_eq!(msb0, vec![0, 1, 2, 3]);
    let lsb0: Vec<u8> = (0..4)
        .map(|i| RawU2::load::<BigEndianLsb0>(&buffer, i).unwrap().into_inner())
        .collect();
    assert_eq!(lsb0, vec![3, 2, 1, 0]);
    assert_eq!(RawU2::load::<LittleEndianMsb0>(&buffer, 4), None);
}

#[test]
fn load_whole_bytes_in_both_orders() {
    let buffer = [0x01, 0x23, 0x45, 0x67, 0x89, 0xAB, 0xCD, 0xEF];
    assert_eq!(RawU8::load::<LittleEndianMsb0>(&buffer, 5).unwrap().into_inner(), 0xAB);
    assert_eq!(RawU8::load::<BigEndianLsb0>(&buffer, 5).unwrap().into_inner(), 0xAB);
    assert_eq!(RawU8::load::<BigEndianLsb0>(&buffer, 8), None);
    assert_eq!(RawU16::load::<LittleEndianMsb0>(&buffer, 1).unwrap().into_inner(), 0x6745);
    assert_eq!(RawU16::load::<BigEndianLsb0>(&buffer, 1).unwrap().into_inner(), 0x4567);
    assert_eq!(RawU16::load::<BigEndianLsb0>(&buffer, 4), None);
    assert_eq!(RawU32::load::<LittleEndianMsb0>(&buffer, 1).unwrap().into_inner(), 0xEFCDAB89);
    assert_eq!(RawU32::load::<BigEndianLsb0>(&buffer, 1).unwrap().into_inner(), 0x89ABCDEF);
    assert_eq!(RawU32::load::<BigEndianLsb0>(&buffer, 0).unwrap().into_inner(), 0x01234567);
    assert_eq!(RawU32::load::<LittleEndianMsb0>(&buffer, 2), None);
}

#[test]
fn load_of_a_part_of_a_pixel_is_none() {
    assert_eq!(RawU16::load::<LittleEndianMsb0>(&[0xFF], 0), None);
    assert_eq!(RawU24::load::<LittleEndianMsb0>(&[0xFF, 0xFF], 0), None);
    assert_eq!(RawU32::load::<BigEndianLsb0>(&[0xFF, 0xFF, 0xFF], 0), None);
    assert_eq!(RawU32::load::<BigEndianLsb0>(&[1, 2, 3, 4, 5, 6, 7], 1), None);
    assert_eq!(RawU1::load::<BigEndianLsb0>(&[], 0), None);
    assert_eq!(RawU8::load::<BigEndianLsb0>(&[], 0), None);
}

#[test]
fn store_packed_changes_only_its_field() {
    let mut buffer = [0xFF];
    assert_eq!(RawU2::new(0b10).store::<LittleEndianMsb0>(&mut buffer, 1), Ok(()));
    assert_eq!(buffer, [0b11_10_11_11]);
    let mut buffer = [0xFF];
    assert_eq!(RawU2::new(0b10).store::<BigEndianLsb0>(&mut buffer, 1), Ok(()));
    assert_eq!(buffer, [0b11_11_10_11]);
    let mut buffer = [0x00, 0x00];
    assert_eq!(RawU1::new(1).store::<LittleEndianMsb0>(&mut buffer, 0), Ok(()));
    assert_eq!(buffer, [0b1000_0000, 0]);
    assert_eq!(RawU1::new(1).store::<BigEndianLsb0>(&mut buffer, 9), Ok(()));
    assert_eq!(buffer, [0b1000_0000, 0b0000_0010]);
    assert_eq!(RawU1::new(0).store::<LittleEndianMsb0>(&mut buffer, 0), Ok(()));
    assert_eq!(buffer, [0, 0b0000_0010]);
    let mut buffer = [0xAB, 0xCD];
    assert_eq!(RawU4::new(0x7).store::<LittleEndianMsb0>(&mut buffer, 2), Ok(()));
    assert_eq!(buffer, [0xAB, 0x7D]);
    assert_eq!(RawU4::new(0x1).store::<BigEndianLsb0>(&mut buffer, 0), Ok(()));
    assert_eq!(buffer, [0xA1, 0x7D]);
}

#[test]
fn store_whole_bytes_in_both_orders() {
    let mut buffer = [0u8; 5];
    assert_eq!(RawU16::new(0x1234).store::<LittleEndianMsb0>(&mut buffer, 1), Ok(()));
    assert_eq!(buffer, [0, 0, 0x34, 0x12, 0]);
    assert_eq!(RawU16::new(0x1234).store::<BigEndianLsb0>(&mut buffer, 0), Ok(()));
    assert_eq!(buffer, [0x12, 0x34, 0x34, 0x12, 0]);
    assert_eq!(RawU8::new(0xEE).store::<BigEndianLsb0>(&mut buffer, 4), Ok(()));
    assert_eq!(buffer, [0x12, 0x34, 0x34, 0x12, 0xEE]);
    let mut buffer = [0xFFu8; 7];
    assert_eq!(RawU24::new(0x112233).store::<BigEndianLsb0>(&mut buffer, 1), Ok(()));
    assert_eq!(buffer, [0xFF, 0xFF, 0xFF, 0x11, 0x22, 0x33, 0xFF]);
    assert_eq!(RawU24::new(0x112233).store::<LittleEndianMsb0>(&mut buffer, 0), Ok(()));
    assert_eq!(buffer, [0x33, 0x22, 0x11, 0x11, 0x22, 0x33, 0xFF]);
    let mut buffer = [0u8; 8];
    assert_eq!(RawU32::new(0x89ABCDEF).store::<LittleEndianMsb0>(&mut buffer, 0), Ok(()));
    assert_eq!(RawU32::new(0x89ABCDEF).store::<BigEndianLsb0>(&mut buffer, 1), Ok(()));
    assert_eq!(buffer, [0xEF, 0xCD, 0xAB, 0x89, 0x89, 0xAB, 0xCD, 0xEF]);
}

#[test]
fn store_out_of_bounds_is_an_error_and_changes_nothing() {
    let mut buffer = [0x12, 0x34, 0x56];
    assert_eq!(RawU1::new(1).store::<LittleEndianMsb0>(&mut buffer, 24), Err(OutOfBoundsError));
    assert_eq!(RawU2::new(1).store::<BigEndianLsb0>(&mut buffer, 12), Err(OutOfBoundsError));
    assert_eq!(RawU4::new(1).store::<LittleEndianMsb0>(&mut buffer, 6), Err(OutOfBoundsError));
    assert_eq!(RawU8::new(1).store::<LittleEndianMsb0>(&mut buffer, 3), Err(OutOfBoundsError));
    assert_eq!(RawU16::new(1).store::<BigEndianLsb0>(&mut buffer, 1), Err(OutOfBoundsError));
    assert_eq!(RawU24::new(1).store::<BigEndianLsb0>(&mut buffer, 1), Err(OutOfBoundsError));
    assert_eq!(RawU32::new(1).store::<BigEndianLsb0>(&mut buffer, 0), Err(OutOfBoundsError));
    assert_eq!(buffer, [0x12, 0x34, 0x56]);
    let mut empty: [u8; 0] = [];
    assert_eq!(RawU1::new(1).store::<BigEndianLsb0>(&mut empty, 0), Err(OutOfBoundsError));
}

#[test]
fn the_largest_index_is_out_of_bounds_without_overflow() {
    let mut buffer = [0u8; 16];
    assert_eq!(RawU1::load::<LittleEndianMsb0>(&buffer, usize::MAX), None);
    assert_eq!(RawU2::load::<BigEndianLsb0>(&buffer, usize::MAX), None);
    assert_eq!(RawU4::load::<LittleEndianMsb0>(&buffer, usize::MAX), None);
    assert_eq!(RawU8::load::<LittleEndianMsb0>(&buffer, usize::MAX), None);
    assert_eq!(RawU16::load::<BigEndianLsb0>(&buffer, usize::MAX), None);
    assert_eq!(RawU24::load::<BigEndianLsb0>(&buffer, usize::MAX / 3 + 1), None);
    assert_eq!(RawU32::load::<LittleEndianMsb0>(&buffer, usize::MAX / 4 + 1), None);
    assert_eq!(
        RawU32::new(7).store::<LittleEndianMsb0>(&mut buffer, usize::MAX),
        Err(OutOfBoundsError)
    );
    assert_eq!(
        RawU24::new(7).store::<BigEndianLsb0>(&mut buffer, usize::MAX / 3 + 6),
        Err(OutOfBoundsError)
    );
    assert_eq!(RawU1::new(1).store::<BigEndianLsb0>(&mut buffer, usize::MAX), Err(OutOfBoundsError));
    assert_eq!(buffer, [0u8; 16]);
}

fn bounds_agree<R: RawData + Copy, O: DataOrder>(raw: R) {
    for len in 0..10usize {
        for index in 0..90usize {
            let mut buffer = vec![0u8; len];
            let inside = (index + 1) * R::BITS_PER_PIXEL <= len * 8;
            assert_eq!(R::load::<O>(&buffer, index).is_some(), inside);
            assert_eq!(raw.store::<O>(&mut buffer, index).is_ok(), inside);
        }
    }
}

#[test]
fn bounds_are_exact_for_every_width() {
    bounds_agree::<RawU1, LittleEndianMsb0>(RawU1::new(1));
    bounds_agree::<RawU1, BigEndianLsb0>(RawU1::new(1));
    bounds_agree::<RawU2, LittleEndianMsb0>(RawU2::new(1));
    bounds_agree::<RawU2, BigEndianLsb0>(RawU2::new(1));
    bounds_agree::<RawU4, LittleEndianMsb0>(RawU4::new(1));
    bounds_agree::<RawU4, BigEndianLsb0>(RawU4::new(1));
    bounds_agree::<RawU8, LittleEndianMsb0>(RawU8::new(1));
    bounds_agree::<RawU8, BigEndianLsb0>(RawU8::new(1));
    bounds_agree::<RawU16, LittleEndianMsb0>(RawU16::new(1));
    bounds_agree::<RawU16, BigEndianLsb0>(RawU16::new(1));
    bounds_agree::<RawU24, LittleEndianMsb0>(RawU24::new(1));
    bounds_agree::<RawU24, BigEndianLsb0>(RawU24::new(1));
    bounds_agree::<RawU32, LittleEndianMsb0>(RawU32::new(1));
    bounds_agree::<RawU32, BigEndianLsb0>(RawU32::new(1));
}

fn round_trip<R: RawData + Copy + PartialEq + std::fmt::Debug, O: DataOrder>(len: usize) {
    let pixels = len * 8 / R::BITS_PER_PIXEL;
    for fill in [0x00u8, 0xFF, 0xA5] {
        for index in 0..pixels {
            for value in [0u32, 1, 0x5555_5555, 0xAAAA_AAAA, 0x1234_5678, 0xFFFF_FFFF] {
                let mut buffer = vec![fill; len];
                let before: Vec<Option<R>> =
                    (0..pixels + 1).map(|i| R::load::<O>(&buffer, i)).collect();
                let raw = R::from_u32(value);
                assert!(raw.store::<O>(&mut buffer, index).is_ok());
                assert_eq!(buffer.len(), len);
                for other in 0..pixels + 1 {
                    let loaded = R::load::<O>(&buffer, other);
                    if other == index {
                        assert_eq!(loaded, Some(raw));
                    } else {
                        assert_eq!(loaded, before[other]);
                    }
                }
            }
        }
    }
}

#[test]
fn store_then_load_returns_the_value_and_leaves_the_others() {
    round_trip::<RawU1, LittleEndianMsb0>(3);
    round_trip::<RawU1, BigEndianLsb0>(3);
    round_trip::<RawU2, LittleEndianMsb0>(3);
    round_trip::<RawU2, BigEndianLsb0>(3);
    round_trip::<RawU4, LittleEndianMsb0>(3);
    round_trip::<RawU4, BigEndianLsb0>(3);
    round_trip::<RawU8, LittleEndianMsb0>(3);
    round_trip::<RawU8, BigEndianLsb0>(3);
    round_trip::<RawU16, LittleEndianMsb0>(7);
    round_trip::<RawU16, BigEndianLsb0>(7);
    round_trip::<RawU24, LittleEndianMsb0>(10);
    round_trip::<RawU24, BigEndianLsb0>(10);
    round_trip::<RawU32, LittleEndianMsb0>(13);
    round_trip::<RawU32, BigEndianLsb0>(13);
}

#[test]
fn store_whole_bytes_leaves_the_rest_of_the_buffer() {
    let mut buffer = [0xEEu8; 10];
    assert_eq!(RawU24::new(0xABCDEF).store::<LittleEndianMsb0>(&mut buffer, 2), Ok(()));
    assert_eq!(buffer, [0xEE, 0xEE, 0xEE, 0xEE, 0xEE, 0xEE, 0xEF, 0xCD, 0xAB, 0xEE]);
    let mut buffer = [0xEEu8; 6];
    assert_eq!(RawU32::new(0).store::<BigEndianLsb0>(&mut buffer, 0), Ok(()));
    assert_eq!(buffer, [0, 0, 0, 0, 0xEE, 0xEE]);
}

#[test]
fn to_bytes_holds_the_significant_bytes() {
    assert_eq!(RawU1::new(1).to_be_bytes(), [0x01]);
    assert_eq!(RawU1::new(1).to_le_bytes(), [0x01]);
    assert_eq!(RawU2::new(2).to_be_bytes(), [0x02]);
    assert_eq!(RawU2::new(2).to_le_bytes(), [0x02]);
    assert_eq!(RawU4::new(0xA).to_be_bytes(), [0x0A]);
    assert_eq!(RawU4::new(0xA).to_le_bytes(), [0x0A]);
    assert_eq!(RawU8::new(0xA5).to_be_bytes(), [0xA5]);
    assert_eq!(RawU8::new(0xA5).to_le_bytes(), [0xA5]);
    assert_eq!(RawU16::new(0x1234).to_be_bytes(), [0x12, 0x34]);
    assert_eq!(RawU16::new(0x1234).to_le_bytes(), [0x34, 0x12]);
    assert_eq!(RawU24::new(0x112233).to_be_bytes(), [0x11, 0x22, 0x33]);
    assert_eq!(RawU24::new(0x112233).to_le_bytes(), [0x33, 0x22, 0x11]);
    assert_eq!(RawU24::new(0xFF11_2233).to_be_bytes(), [0x11, 0x22, 0x33]);
    assert_eq!(RawU32::new(0x1234_5678).to_be_bytes(), [0x12, 0x34, 0x56, 0x78]);
    assert_eq!(RawU32::new(0x1234_5678).to_le_bytes(), [0x78, 0x56, 0x34, 0x12]);
}

#[test]
fn to_bytes_are_the_bytes_that_store_writes() {
    let raw = RawU24::new(0xC0FFEE);
    let mut buffer = [0u8; 3];
    raw.store::<BigEndianLsb0>(&mut buffer, 0).unwrap();
    assert_eq!(buffer, raw.to_be_bytes());
    raw.store::<LittleEndianMsb0>(&mut buffer, 0).unwrap();
    assert_eq!(buffer, raw.to_le_bytes());
    assert_eq!(RawU24::load::<LittleEndianMsb0>(&raw.to_le_bytes(), 0), Some(raw));
    assert_eq!(RawU24::load::<BigEndianLsb0>(&raw.to_be_bytes(), 0), Some(raw));
    let raw = RawU16::new(0xBEEF);
    assert_eq!(RawU16::load::<LittleEndianMsb0>(&raw.to_le_bytes(), 0), Some(raw));
    assert_eq!(RawU16::load::<BigEndianLsb0>(&raw.to_be_bytes(), 0), Some(raw));
    let raw = RawU32::new(0xDEADBEEF);
    assert_eq!(RawU32::load::<LittleEndianMsb0>(&raw.to_le_bytes(), 0), Some(raw));
    assert_eq!(RawU32::load::<BigEndianLsb0>(&raw.to_be_bytes(), 0), Some(raw));
}

#[test]
fn out_of_bounds_error_is_one_value() {
    assert_eq!(OutOfBoundsError, OutOfBoundsError);
    assert_eq!(format!("{:?}", OutOfBoundsError), "OutOfBoundsError");
    let error = RawU8::new(0).store::<LittleEndianMsb0>(&mut [], 0).unwrap_err();
    assert_eq!(error, OutOfBoundsError);
}
