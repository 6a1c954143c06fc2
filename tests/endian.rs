use memflow::endian::{decode_u16, decode_u32, decode_u64, encode_u16, encode_u32, encode_u64};
use memflow::types::Endianess;

#[test]
fn endian_round_trip_both_orders() {
    for &x in &[0u64, 1, 0x0102_0304_0506_0708, u64::MAX, 0xdead_beef] {
        for &e in &[Endianess::LittleEndian, Endianess::BigEndian] {
            let b = encode_u64(x, e);
            assert_eq!(b.len(), 8);
            assert_eq!(decode_u64(&b, e), x);
        }
    }
    for &x in &[0u32, 0x0102_0304, u32::MAX] {
        for &e in &[Endianess::LittleEndian, Endianess::BigEndian] {
            assert_eq!(decode_u32(&encode_u32(x, e), e), x);
        }
    }
}

#[test]
fn endian_byte_order() {
    assert_eq!(
        encode_u64(0x0102_0304_0506_0708, Endianess::LittleEndian),
        vec![8, 7, 6, 5, 4, 3, 2, 1]
    );
    assert_eq!(
        encode_u64(0x0102_0304_0506_0708, Endianess::BigEndian),
        vec![1, 2, 3, 4, 5, 6, 7, 8]
    );
    assert_eq!(decode_u32(&[0x78, 0x56, 0x34, 0x12], Endianess::LittleEndian), 0x1234_5678);
    assert_eq!(decode_u32(&[0x12, 0x34, 0x56, 0x78], Endianess::BigEndian), 0x1234_5678);
}

#[test]
fn endian_u16_round_trip() {
    for &x in &[0u16, 1, 0x1234, u16::MAX] {
        for &e in &[Endianess::LittleEndian, Endianess::BigEndian] {
            assert_eq!(decode_u16(&encode_u16(x, e), e), x);
        }
    }
    assert_eq!(encode_u16(0x1234, Endianess::LittleEndian), vec![0x34, 0x12]);
    assert_eq!(encode_u16(0x1234, Endianess::BigEndian), vec![0x12, 0x34]);
}
