use dex2smali::utils::{
    decode_uleb128, decode_uleb128_at, encode_uleb128, read_u16_le, read_u32_le, read_u64_le,
    to_i16, to_i32, to_i64, to_i8, to_nibbles,
};

#[test]
fn read_u16_le_is_little_endian() {
    assert_eq!(read_u16_le(&[0x34, 0x12], 0), 0x1234);
    assert_eq!(read_u16_le(&[0xFF, 0x34, 0x12], 1), 0x1234);
    assert_eq!(read_u16_le(&[0xFF, 0xFF], 0), 0xFFFF);
}

#[test]
fn read_u32_le_is_little_endian() {
    assert_eq!(read_u32_le(&[0x78, 0x56, 0x34, 0x12], 0), 0x1234_5678);
    assert_eq!(read_u32_le(&[0, 0, 0xFF, 0xFF, 0xFF, 0xFF], 2), 0xFFFF_FFFF);
    assert_eq!(read_u32_le(&[1, 0, 0, 0], 0), 1);
}

#[test]
fn read_u64_le_is_little_endian() {
    let bytes = [0xEF, 0xCD, 0xAB, 0x89, 0x67, 0x45, 0x23, 0x01];
    assert_eq!(read_u64_le(&bytes, 0), 0x0123_4567_89AB_CDEF);
    assert_eq!(read_u64_le(&[0xFF; 9], 1), u64::MAX);
}

#[test]
fn to_nibbles_gives_low_half_first() {
    assert_eq!(to_nibbles(0x21), (1, 2));
    assert_eq!(to_nibbles(0xF0), (0, 15));
    assert_eq!(to_nibbles(0x00), (0, 0));
    assert_eq!(to_nibbles(0xFF), (15, 15));
}

#[test]
fn signed_views_are_twos_complement() {
    assert_eq!(to_i8(0x7F), 127);
    assert_eq!(to_i8(0x80), -128);
    assert_eq!(to_i8(0xF0), -16);
    assert_eq!(to_i16(0xFE0F), -497);
    assert_eq!(to_i16(0x7FFF), 32767);
    assert_eq!(to_i32(0xFFFF_FFFF), -1);
    assert_eq!(to_i32(0x8000_0000), i32::MIN);
    assert_eq!(to_i64(u64::MAX), -1);
    assert_eq!(to_i64(0x8000_0000_0000_0000), i64::MIN);
    assert_eq!(to_i64(12345678901234567), 12345678901234567);
}

#[test]
fn decode_uleb128_known_values() {
    assert_eq!(decode_uleb128(&[0x00]), Some((0, 1)));
    assert_eq!(decode_uleb128(&[0x7F]), Some((127, 1)));
    assert_eq!(decode_uleb128(&[0x80, 0x01]), Some((128, 2)));
    assert_eq!(decode_uleb128(&[0xE5, 0x8E, 0x26]), Some((624485, 3)));
}

#[test]
fn decode_uleb128_ignores_what_follows() {
    assert_eq!(decode_uleb128(&[0x05, 0xFF, 0xFF]), Some((5, 1)));
    assert_eq!(decode_uleb128_at(&[0xFF, 0x80, 0x01, 0x07], 1), Some((128, 2)));
}

#[test]
fn decode_uleb128_takes_five_bytes_at_most() {
    assert_eq!(
        decode_uleb128(&[0xFF, 0xFF, 0xFF, 0xFF, 0x0F]),
        Some((0xFFFF_FFFF, 5))
    );
    assert_eq!(
        decode_uleb128(&[0xFF, 0xFF, 0xFF, 0xFF, 0x7F]),
        Some((0x7_FFFF_FFFF, 5))
    );
    assert_eq!(decode_uleb128(&[0x80, 0x80, 0x80, 0x80, 0x80, 0x01]), None);
}

#[test]
fn decode_uleb128_fails_on_short_input() {
    assert_eq!(decode_uleb128(&[]), None);
    assert_eq!(decode_uleb128(&[0x80]), None);
    assert_eq!(decode_uleb128(&[0xE5, 0x8E]), None);
    assert_eq!(decode_uleb128_at(&[0x01], 1), None);
    assert_eq!(decode_uleb128_at(&[0x01], 7), None);
}

#[test]
fn encode_uleb128_exact_bytes() {
    assert_eq!(encode_uleb128(0), vec![0x00]);
    assert_eq!(encode_uleb128(127), vec![0x7F]);
    assert_eq!(encode_uleb128(128), vec![0x80, 0x01]);
    assert_eq!(encode_uleb128(624485), vec![0xE5, 0x8E, 0x26]);
    assert_eq!(
        encode_uleb128(u32::MAX),
        vec![0xFF, 0xFF, 0xFF, 0xFF, 0x0F]
    );
}

#[test]
fn uleb128_decode_undoes_encode() {
    let samples: [u32; 12] = [
        0,
        1,
        127,
        128,
        255,
        16383,
        16384,
        2097151,
        2097152,
        268435455,
        268435456,
        u32::MAX,
    ];
    for v in samples {
        let bytes = encode_uleb128(v);
        assert!(bytes.len() >= 1 && bytes.len() <= 5);
        assert_eq!(decode_uleb128(&bytes), Some((v as u64, bytes.len())));
    }
    let mut v: u32 = 1;
    for _ in 0..2000 {
        v = v.wrapping_mul(1664525).wrapping_add(1013904223);
        let bytes = encode_uleb128(v);
        assert_eq!(decode_uleb128(&bytes), Some((v as u64, bytes.len())));
    }
}
