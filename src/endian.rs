//! Integers to and from the target's bytes, in its byte order.

use vstd::prelude::*;

use crate::types::Endianess;

verus! {

/// Eight bytes, least significant first, as one value.
pub open spec fn le8(b0: u8, b1: u8, b2: u8, b3: u8, b4: u8, b5: u8, b6: u8, b7: u8) -> u64 {
    (b0 as u64) | ((b1 as u64) << 8u64) | ((b2 as u64) << 16u64) | ((b3 as u64) << 24u64) | ((
    b4 as u64) << 32u64) | ((b5 as u64) << 40u64) | ((b6 as u64) << 48u64) | ((b7 as u64)
        << 56u64)
}

/// Four bytes, least significant first, as one value.
pub open spec fn le4(b0: u8, b1: u8, b2: u8, b3: u8) -> u32 {
    (b0 as u32) | ((b1 as u32) << 8u32) | ((b2 as u32) << 16u32) | ((b3 as u32) << 24u32)
}

/// Two bytes, least significant first, as one value.
pub open spec fn le2(b0: u8, b1: u8) -> u16 {
    (b0 as u16) | ((b1 as u16) << 8u16)
}

/// The value that eight bytes encode in byte order `e`.
pub open spec fn u64_from_bytes(b: Seq<u8>, e: Endianess) -> u64 {
    match e {
        Endianess::LittleEndian => le8(b[0], b[1], b[2], b[3], b[4], b[5], b[6], b[7]),
        Endianess::BigEndian => le8(b[7], b[6], b[5], b[4], b[3], b[2], b[1], b[0]),
    }
}

/// The value that four bytes encode in byte order `e`.
pub open spec fn u32_from_bytes(b: Seq<u8>, e: Endianess) -> u32 {
    match e {
        Endianess::LittleEndian => le4(b[0], b[1], b[2], b[3]),
        Endianess::BigEndian => le4(b[3], b[2], b[1], b[0]),
    }
}

/// The bytes of `x`, least significant first.
pub open spec fn u64_le_bytes(x: u64) -> Seq<u8> {
    seq![
        x as u8,
        (x >> 8u64) as u8,
        (x >> 16u64) as u8,
        (x >> 24u64) as u8,
        (x >> 32u64) as u8,
        (x >> 40u64) as u8,
        (x >> 48u64) as u8,
        (x >> 56u64) as u8,
    ]
}

/// The bytes of `x`, least significant first.
pub open spec fn u32_le_bytes(x: u32) -> Seq<u8> {
    seq![x as u8, (x >> 8u32) as u8, (x >> 16u32) as u8, (x >> 24u32) as u8]
}

/// The eight bytes that encode `x` in byte order `e`.
pub open spec fn u64_to_bytes(x: u64, e: Endianess) -> Seq<u8> {
    match e {
        Endianess::LittleEndian => u64_le_bytes(x),
        Endianess::BigEndian => u64_le_bytes(x).reverse(),
    }
}

/// The four bytes that encode `x` in byte order `e`.
pub open spec fn u32_to_bytes(x: u32, e: Endianess) -> Seq<u8> {
    match e {
        Endianess::LittleEndian => u32_le_bytes(x),
        Endianess::BigEndian => u32_le_bytes(x).reverse(),
    }
}

proof fn lemma_le8_split(x: u64)
    ensures
        le8(
            x as u8,
            (x >> 8u64) as u8,
            (x >> 16u64) as u8,
            (x >> 24u64) as u8,
            (x >> 32u64) as u8,
            (x >> 40u64) as u8,
            (x >> 48u64) as u8,
            (x >> 56u64) as u8,
        ) == x,
{
    assert((x as u8 as u64) | (((x >> 8u64) as u8 as u64) << 8u64) | (((x >> 16u64) as u8 as u64)
        << 16u64) | (((x >> 24u64) as u8 as u64) << 24u64) | (((x >> 32u64) as u8 as u64)
        << 32u64) | (((x >> 40u64) as u8 as u64) << 40u64) | (((x >> 48u64) as u8 as u64)
        << 48u64) | (((x >> 56u64) as u8 as u64) << 56u64) == x) by (bit_vector);
}

proof fn lemma_le4_split(x: u32)
    ensures
        le4(x as u8, (x >> 8u32) as u8, (x >> 16u32) as u8, (x >> 24u32) as u8) == x,
{
    assert((x as u8 as u32) | (((x >> 8u32) as u8 as u32) << 8u32) | (((x >> 16u32) as u8 as u32)
        << 16u32) | (((x >> 24u32) as u8 as u32) << 24u32) == x) by (bit_vector);
}

/// Decoding the encoding of a 64-bit value in either byte order gives the value back.
pub proof fn lemma_u64_round_trip(x: u64, e: Endianess)
    ensures
        u64_to_bytes(x, e).len() == 8,
        u64_from_bytes(u64_to_bytes(x, e), e) == x,
{
    lemma_le8_split(x);
}

/// Decoding the encoding of a 32-bit value in either byte order gives the value back.
pub proof fn lemma_u32_round_trip(x: u32, e: Endianess)
    ensures
        u32_to_bytes(x, e).len() == 4,
        u32_from_bytes(u32_to_bytes(x, e), e) == x,
{
    lemma_le4_split(x);
}

/// Reads a 64-bit value from the first eight bytes of `b`.
pub fn decode_u64(b: &[u8], e: Endianess) -> (r: u64)
    requires
        b@.len() >= 8,
    ensures
        r == u64_from_bytes(b@, e),
{
    match e {
        Endianess::LittleEndian => (b[0] as u64) | ((b[1] as u64) << 8) | ((b[2] as u64) << 16) | ((
        b[3] as u64) << 24) | ((b[4] as u64) << 32) | ((b[5] as u64) << 40) | ((b[6] as u64) << 48)
            | ((b[7] as u64) << 56),
        Endianess::BigEndian => (b[7] as u64) | ((b[6] as u64) << 8) | ((b[5] as u64) << 16) | ((
        b[4] as u64) << 24) | ((b[3] as u64) << 32) | ((b[2] as u64) << 40) | ((b[1] as u64) << 48)
            | ((b[0] as u64) << 56),
    }
}

/// The value that two bytes encode in byte order `e`.
pub open spec fn u16_from_bytes(b: Seq<u8>, e: Endianess) -> u16 {
    match e {
        Endianess::LittleEndian => le2(b[0], b[1]),
        Endianess::BigEndian => le2(b[1], b[0]),
    }
}

/// The two bytes that encode `x` in byte order `e`.
pub open spec fn u16_to_bytes(x: u16, e: Endianess) -> Seq<u8> {
    match e {
        Endianess::LittleEndian => seq![x as u8, (x >> 8u16) as u8],
        Endianess::BigEndian => seq![(x >> 8u16) as u8, x as u8],
    }
}

/// Decoding the encoding of a 16-bit value in either byte order gives the value back.
pub proof fn lemma_u16_round_trip(x: u16, e: Endianess)
    ensures
        u16_to_bytes(x, e).len() == 2,
        u16_from_bytes(u16_to_bytes(x, e), e) == x,
{
    assert((x as u8 as u16) | (((x >> 8u16) as u8 as u16) << 8u16) == x) by (bit_vector);
}

/// Reads a 16-bit value from the first two bytes of `b`.
pub fn decode_u16(b: &[u8], e: Endianess) -> (r: u16)
    requires
        b@.len() >= 2,
    ensures
        r == u16_from_bytes(b@, e),
{
    match e {
        Endianess::LittleEndian => (b[0] as u16) | ((b[1] as u16) << 8),
        Endianess::BigEndian => (b[1] as u16) | ((b[0] as u16) << 8),
    }
}

/// The two bytes of `x` in byte order `e`.
pub fn encode_u16(x: u16, e: Endianess) -> (r: Vec<u8>)
    ensures
        r@ == u16_to_bytes(x, e),
{
    let r = match e {
        Endianess::LittleEndian => vec![x as u8, (x >> 8) as u8],
        Endianess::BigEndian => vec![(x >> 8) as u8, x as u8],
    };
    assert(r@ =~= u16_to_bytes(x, e));
    r
}

/// Reads a little-endian 16-bit value from bytes `i` and `i + 1` of `b`.
pub fn decode_u16_le(b: &[u8], i: usize) -> (r: u16)
    requires
        i + 2 <= b@.len(),
    ensures
        r == le2(b@[i as int], b@[i + 1]),
{
    (b[i] as u16) | ((b[i + 1] as u16) << 8)
}

/// Reads a 32-bit value from the first four bytes of `b`.
pub fn decode_u32(b: &[u8], e: Endianess) -> (r: u32)
    requires
        b@.len() >= 4,
    ensures
        r == u32_from_bytes(b@, e),
{
    match e {
        Endianess::LittleEndian => (b[0] as u32) | ((b[1] as u32) << 8) | ((b[2] as u32) << 16) | ((
        b[3] as u32) << 24),
        Endianess::BigEndian => (b[3] as u32) | ((b[2] as u32) << 8) | ((b[1] as u32) << 16) | ((
        b[0] as u32) << 24),
    }
}

/// The eight bytes of `x` in byte order `e`.
pub fn encode_u64(x: u64, e: Endianess) -> (r: Vec<u8>)
    ensures
        r@ == u64_to_bytes(x, e),
{
    let le = vec![
        x as u8,
        (x >> 8) as u8,
        (x >> 16) as u8,
        (x >> 24) as u8,
        (x >> 32) as u8,
        (x >> 40) as u8,
        (x >> 48) as u8,
        (x >> 56) as u8,
    ];
    match e {
        Endianess::LittleEndian => {
            assert(le@ =~= u64_le_bytes(x));
            le
        },
        Endianess::BigEndian => {
            let be = vec![le[7], le[6], le[5], le[4], le[3], le[2], le[1], le[0]];
            assert(be@ =~= u64_le_bytes(x).reverse());
            be
        },
    }
}

/// The four bytes of `x` in byte order `e`.
pub fn encode_u32(x: u32, e: Endianess) -> (r: Vec<u8>)
    ensures
        r@ == u32_to_bytes(x, e),
{
    let le = vec![x as u8, (x >> 8) as u8, (x >> 16) as u8, (x >> 24) as u8];
    match e {
        Endianess::LittleEndian => {
            assert(le@ =~= u32_le_bytes(x));
            le
        },
        Endianess::BigEndian => {
            let be = vec![le[3], le[2], le[1], le[0]];
            assert(be@ =~= u32_le_bytes(x).reverse());
            be
        },
    }
}

} // verus!
