//! Fixed-width integer codecs for little-endian (CAN) and big-endian (SMS)
//! wire formats.
use vstd::prelude::*;

verus! {

/// Little-endian value of two bytes.
pub open spec fn le2(b0: u8, b1: u8) -> int {
    b0 + 0x100 * b1
}

/// Little-endian value of four bytes.
pub open spec fn le4(b0: u8, b1: u8, b2: u8, b3: u8) -> int {
    b0 + 0x100 * b1 + 0x1_0000 * b2 + 0x100_0000 * b3
}

/// Little-endian value of the first eight bytes of `b`.
pub open spec fn le8(b: Seq<u8>) -> int {
    le4(b[0], b[1], b[2], b[3]) + 0x1_0000_0000 * le4(b[4], b[5], b[6], b[7])
}

/// Big-endian value of the two bytes of `b` at `at`.
pub open spec fn be2(b: Seq<u8>, at: int) -> int {
    0x100 * b[at] + b[at + 1]
}

/// Big-endian value of the four bytes of `b` at `at`.
pub open spec fn be4(b: Seq<u8>, at: int) -> int {
    0x1_0000 * be2(b, at) + be2(b, at + 2)
}

/// Big-endian value of the eight bytes of `b` at `at`.
pub open spec fn be8(b: Seq<u8>, at: int) -> int {
    0x1_0000_0000 * be4(b, at) + be4(b, at + 4)
}

/// Value of a 16-bit two's complement pattern.
pub open spec fn signed16(v: int) -> int {
    if v < 0x8000 { v } else { v - 0x1_0000 }
}

/// Value of a 32-bit two's complement pattern.
pub open spec fn signed32(v: int) -> int {
    if v < 0x8000_0000 { v } else { v - 0x1_0000_0000 }
}

/// Splits a `u16` into its little-endian bytes.
pub fn u16_to_le(x: u16) -> (r: (u8, u8))
    ensures
        r.0 == x % 0x100,
        r.1 == x / 0x100,
        le2(r.0, r.1) == x,
{
    let b0 = (x & 0xff) as u8;
    let b1 = (x >> 8u16) as u8;
    assert(b0 == x % 0x100 && b1 == x / 0x100) by (bit_vector)
        requires
            b0 == (x & 0xff) as u8,
            b1 == (x >> 8u16) as u8,
    ;
    (b0, b1)
}

/// Joins two little-endian bytes into a `u16`.
pub fn u16_from_le(b0: u8, b1: u8) -> (r: u16)
    ensures
        r == le2(b0, b1),
{
    let r = (b0 as u16) | ((b1 as u16) << 8u16);
    assert(r == b0 + 0x100 * b1) by (bit_vector)
        requires
            r == (b0 as u16) | ((b1 as u16) << 8u16),
    ;
    r
}

/// Splits a `u32` into its little-endian bytes.
pub fn u32_to_le(x: u32) -> (r: [u8; 4])
    ensures
        r@.len() == 4,
        r@[0] == x % 0x100,
        r@[1] == (x / 0x100) % 0x100,
        r@[2] == (x / 0x1_0000) % 0x100,
        r@[3] == x / 0x100_0000,
        le4(r@[0], r@[1], r@[2], r@[3]) == x,
{
    let b0 = (x & 0xff) as u8;
    let b1 = ((x >> 8u32) & 0xff) as u8;
    let b2 = ((x >> 16u32) & 0xff) as u8;
    let b3 = (x >> 24u32) as u8;
    assert(b0 == x % 0x100 && b1 == (x / 0x100) % 0x100 && b2 == (x / 0x1_0000) % 0x100 && b3
        == x / 0x100_0000 && b0 + 0x100 * b1 + 0x1_0000 * b2 + 0x100_0000 * b3 == x)
        by (bit_vector)
        requires
            b0 == (x & 0xff) as u8,
            b1 == ((x >> 8u32) & 0xff) as u8,
            b2 == ((x >> 16u32) & 0xff) as u8,
            b3 == (x >> 24u32) as u8,
    ;
    [b0, b1, b2, b3]
}

/// Joins four little-endian bytes into a `u32`.
pub fn u32_from_le(b0: u8, b1: u8, b2: u8, b3: u8) -> (r: u32)
    ensures
        r == le4(b0, b1, b2, b3),
{
    let r = (b0 as u32) | ((b1 as u32) << 8u32) | ((b2 as u32) << 16u32) | ((b3 as u32)
        << 24u32);
    assert(r == b0 + 0x100 * b1 + 0x1_0000 * b2 + 0x100_0000 * b3) by (bit_vector)
        requires
            r == (b0 as u32) | ((b1 as u32) << 8u32) | ((b2 as u32) << 16u32) | ((b3 as u32)
                << 24u32),
    ;
    r
}

/// Reads the first eight bytes of `data` as a little-endian `u64`.
pub fn load_data(data: &[u8]) -> (r: u64)
    requires
        data@.len() >= 8,
    ensures
        r == le8(data@),
{
    let lo = u32_from_le(data[0], data[1], data[2], data[3]) as u64;
    let hi = u32_from_le(data[4], data[5], data[6], data[7]) as u64;
    let r = lo | (hi << 32u64);
    assert(r == lo + 0x1_0000_0000 * hi) by (bit_vector)
        requires
            lo < 0x1_0000_0000,
            hi < 0x1_0000_0000,
            r == lo | (hi << 32u64),
    ;
    r
}

/// Reads the big-endian `u16` at `at`.
pub fn read_be16(b: &[u8], at: usize) -> (r: u16)
    requires
        at + 2 <= b@.len(),
    ensures
        r == be2(b@, at as int),
{
    let _n = b.len();
    u16_from_le(b[at + 1], b[at])
}

/// Reads the big-endian `u32` at `at`.
pub fn read_be32(b: &[u8], at: usize) -> (r: u32)
    requires
        at + 4 <= b@.len(),
    ensures
        r == be4(b@, at as int),
{
    let _n = b.len();
    u32_from_le(b[at + 3], b[at + 2], b[at + 1], b[at])
}

/// Reads the big-endian `u64` at `at`.
pub fn read_be64(b: &[u8], at: usize) -> (r: u64)
    requires
        at + 8 <= b@.len(),
    ensures
        r == be8(b@, at as int),
{
    let _n = b.len();
    let hi = read_be32(b, at) as u64;
    let lo = read_be32(b, at + 4) as u64;
    let r = lo | (hi << 32u64);
    assert(r == lo + 0x1_0000_0000 * hi) by (bit_vector)
        requires
            lo < 0x1_0000_0000,
            hi < 0x1_0000_0000,
            r == lo | (hi << 32u64),
    ;
    r
}

/// Value of an 8-bit two's complement pattern.
pub open spec fn signed8(v: int) -> int {
    if v < 0x80 { v } else { v - 0x100 }
}

/// Reinterprets an 8-bit pattern as a two's complement value.
pub fn to_signed8(v: u8) -> (r: i8)
    ensures
        r == signed8(v as int),
{
    if v < 0x80 {
        v as i8
    } else {
        (v as i16 - 0x100) as i8
    }
}

/// Reinterprets a 16-bit pattern as a two's complement value.
pub fn to_signed16(v: u16) -> (r: i16)
    ensures
        r == signed16(v as int),
{
    if v < 0x8000 {
        v as i16
    } else {
        (v as i32 - 0x1_0000) as i16
    }
}

/// Reinterprets a 32-bit pattern as a two's complement value.
pub fn to_signed32(v: u32) -> (r: i32)
    ensures
        r == signed32(v as int),
{
    if v < 0x8000_0000 {
        v as i32
    } else {
        (v as i64 - 0x1_0000_0000) as i32
    }
}

} // verus!
