//! Lane views of a 64-byte vector and the arithmetic they are stated in.
//!
//! A 512-bit vector is a sequence of 64 bytes. A lane of width 16, 32 or
//! 64 bits at index `i` is the little-endian value of the bytes it covers;
//! an 8-bit lane is the byte itself. Signed lane arguments are carried as
//! their two's-complement bit patterns, so addition at every width is
//! addition modulo 2^width on the unsigned view.

use vstd::prelude::*;
use vstd::arithmetic::power2::lemma2_to64;
use vstd::arithmetic::power2::pow2;

verus! {

/// Whether bit `i` (0 <= i < 8) of the writemask byte `k` is set.
pub open spec fn mask_bit(k: u8, i: int) -> bool
    recommends
        0 <= i < 8,
{
    (k as nat / pow2(i as nat)) % 2 == 1
}

pub(crate) fn pow2_u8(i: usize) -> (r: u8)
    requires
        i < 8,
    ensures
        r as nat == pow2(i as nat),
        r >= 1,
{
    proof {
        lemma2_to64();
    }
    if i == 0 {
        1
    } else if i == 1 {
        2
    } else if i == 2 {
        4
    } else if i == 3 {
        8
    } else if i == 4 {
        16
    } else if i == 5 {
        32
    } else if i == 6 {
        64
    } else {
        128
    }
}

pub(crate) fn mask_bit_set(k: u8, i: usize) -> (r: bool)
    requires
        i < 8,
    ensures
        r == mask_bit(k, i as int),
{
    let p: u8 = pow2_u8(i);
    (k / p) % 2 == 1
}

/// The 16-bit lane at index `i` (0 <= i < 32) of a 64-byte sequence.
pub open spec fn lane16(s: Seq<u8>, i: int) -> u16
    recommends
        0 <= i < 32,
        s.len() == 64,
{
    (s[2 * i] + 0x100 * s[2 * i + 1]) as u16
}

/// The 32-bit lane at index `i` (0 <= i < 16) of a 64-byte sequence.
pub open spec fn lane32(s: Seq<u8>, i: int) -> u32
    recommends
        0 <= i < 16,
        s.len() == 64,
{
    (s[4 * i] + 0x100 * s[4 * i + 1] + 0x1_0000 * s[4 * i + 2] + 0x100_0000 * s[4 * i + 3]) as u32
}

/// The 64-bit lane at index `i` (0 <= i < 8) of a 64-byte sequence.
pub open spec fn lane64(s: Seq<u8>, i: int) -> u64
    recommends
        0 <= i < 8,
        s.len() == 64,
{
    (s[8 * i] + 0x100 * s[8 * i + 1] + 0x1_0000 * s[8 * i + 2] + 0x100_0000 * s[8 * i + 3]
        + 0x1_0000_0000 * s[8 * i + 4] + 0x100_0000_0000 * s[8 * i + 5]
        + 0x1_0000_0000_0000 * s[8 * i + 6] + 0x100_0000_0000_0000 * s[8 * i + 7]) as u64
}

/// The two's-complement bit pattern of an `i8`, as a `u8`.
pub open spec fn u8_bits(x: i8) -> u8 {
    if x >= 0 {
        x as u8
    } else {
        (x + 0x100) as u8
    }
}

/// The two's-complement bit pattern of an `i16`, as a `u16`.
pub open spec fn u16_bits(x: i16) -> u16 {
    if x >= 0 {
        x as u16
    } else {
        (x + 0x1_0000) as u16
    }
}

/// The two's-complement bit pattern of an `i32`, as a `u32`.
pub open spec fn u32_bits(x: i32) -> u32 {
    if x >= 0 {
        x as u32
    } else {
        (x + 0x1_0000_0000) as u32
    }
}

/// The two's-complement bit pattern of an `i64`, as a `u64`.
pub open spec fn u64_bits(x: i64) -> u64 {
    if x >= 0 {
        x as u64
    } else {
        (x + 0x1_0000_0000_0000_0000) as u64
    }
}

/// Addition modulo 2^8: the bit pattern of a wrapping 8-bit add.
pub open spec fn sum8(x: u8, y: u8) -> u8 {
    ((x + y) % 0x100) as u8
}

/// Addition modulo 2^16: the bit pattern of a wrapping 16-bit add.
pub open spec fn sum16(x: u16, y: u16) -> u16 {
    ((x + y) % 0x1_0000) as u16
}

/// Addition modulo 2^32: the bit pattern of a wrapping 32-bit add.
pub open spec fn sum32(x: u32, y: u32) -> u32 {
    ((x + y) % 0x1_0000_0000) as u32
}

/// Addition modulo 2^64: the bit pattern of a wrapping 64-bit add.
pub open spec fn sum64(x: u64, y: u64) -> u64 {
    ((x + y) % 0x1_0000_0000_0000_0000) as u64
}

pub(crate) fn to_u8_bits(x: i8) -> (r: u8)
    ensures
        r == u8_bits(x),
{
    if x >= 0 {
        x as u8
    } else {
        ((x as i16) + 0x100) as u8
    }
}

pub(crate) fn to_u16_bits(x: i16) -> (r: u16)
    ensures
        r == u16_bits(x),
{
    if x >= 0 {
        x as u16
    } else {
        ((x as i32) + 0x1_0000) as u16
    }
}

pub(crate) fn to_u32_bits(x: i32) -> (r: u32)
    ensures
        r == u32_bits(x),
{
    if x >= 0 {
        x as u32
    } else {
        ((x as i64) + 0x1_0000_0000) as u32
    }
}

pub(crate) fn to_u64_bits(x: i64) -> (r: u64)
    ensures
        r == u64_bits(x),
{
    if x >= 0 {
        x as u64
    } else {
        ((x as i128) + 0x1_0000_0000_0000_0000) as u64
    }
}

/// Appends the two little-endian bytes of `w`, filling the next 16-bit lane.
pub(crate) fn push_le16(v: &mut Vec<u8>, w: u16)
    requires
        old(v)@.len() % 2 == 0,
    ensures
        final(v)@.len() == old(v)@.len() + 2,
        forall|j: int| 0 <= j < old(v)@.len() ==> final(v)@[j] == old(v)@[j],
        lane16(final(v)@, old(v)@.len() as int / 2) == w,
{
    let b0: u8 = (w % 0x100) as u8;
    let b1: u8 = (w / 0x100) as u8;
    v.push(b0);
    v.push(b1);
    proof {
        assert(w == b0 + 0x100 * b1);
    }
}

/// Appends the four little-endian bytes of `w`, filling the next 32-bit lane.
pub(crate) fn push_le32(v: &mut Vec<u8>, w: u32)
    requires
        old(v)@.len() % 4 == 0,
    ensures
        final(v)@.len() == old(v)@.len() + 4,
        forall|j: int| 0 <= j < old(v)@.len() ==> final(v)@[j] == old(v)@[j],
        lane32(final(v)@, old(v)@.len() as int / 4) == w,
{
    let b0: u8 = (w % 0x100) as u8;
    let w1: u32 = w / 0x100;
    let b1: u8 = (w1 % 0x100) as u8;
    let w2: u32 = w1 / 0x100;
    let b2: u8 = (w2 % 0x100) as u8;
    let b3: u8 = (w2 / 0x100) as u8;
    v.push(b0);
    v.push(b1);
    v.push(b2);
    v.push(b3);
    proof {
        assert(w == b0 + 0x100 * b1 + 0x1_0000 * b2 + 0x100_0000 * b3);
    }
}

/// Appends the eight little-endian bytes of `w`, filling the next 64-bit lane.
pub(crate) fn push_le64(v: &mut Vec<u8>, w: u64)
    requires
        old(v)@.len() % 8 == 0,
    ensures
        final(v)@.len() == old(v)@.len() + 8,
        forall|j: int| 0 <= j < old(v)@.len() ==> final(v)@[j] == old(v)@[j],
        lane64(final(v)@, old(v)@.len() as int / 8) == w,
{
    let b0: u8 = (w % 0x100) as u8;
    let w1: u64 = w / 0x100;
    let b1: u8 = (w1 % 0x100) as u8;
    let w2: u64 = w1 / 0x100;
    let b2: u8 = (w2 % 0x100) as u8;
    let w3: u64 = w2 / 0x100;
    let b3: u8 = (w3 % 0x100) as u8;
    let w4: u64 = w3 / 0x100;
    let b4: u8 = (w4 % 0x100) as u8;
    let w5: u64 = w4 / 0x100;
    let b5: u8 = (w5 % 0x100) as u8;
    let w6: u64 = w5 / 0x100;
    let b6: u8 = (w6 % 0x100) as u8;
    let b7: u8 = (w6 / 0x100) as u8;
    v.push(b0);
    v.push(b1);
    v.push(b2);
    v.push(b3);
    v.push(b4);
    v.push(b5);
    v.push(b6);
    v.push(b7);
    proof {
        assert(w == b0 + 0x100 * b1 + 0x1_0000 * b2 + 0x100_0000 * b3 + 0x1_0000_0000 * b4
            + 0x100_0000_0000 * b5 + 0x1_0000_0000_0000 * b6 + 0x100_0000_0000_0000 * b7);
    }
}

/// Reads the 16-bit lane at index `i` of a 64-byte vector.
pub(crate) fn read_lane16(v: &Vec<u8>, i: usize) -> (r: u16)
    requires
        v@.len() == 64,
        i < 32,
    ensures
        r == lane16(v@, i as int),
{
    let base: usize = 2 * i;
    (v[base] as u16) + 0x100 * (v[base + 1] as u16)
}

/// Reads the 32-bit lane at index `i` of a 64-byte vector.
pub(crate) fn read_lane32(v: &Vec<u8>, i: usize) -> (r: u32)
    requires
        v@.len() == 64,
        i < 16,
    ensures
        r == lane32(v@, i as int),
{
    let base: usize = 4 * i;
    (v[base] as u32) + 0x100 * (v[base + 1] as u32) + 0x1_0000 * (v[base + 2] as u32) + 0x100_0000
        * (v[base + 3] as u32)
}

/// Reads the 64-bit lane at index `i` of a 64-byte vector.
pub(crate) fn read_lane64(v: &Vec<u8>, i: usize) -> (r: u64)
    requires
        v@.len() == 64,
        i < 8,
    ensures
        r == lane64(v@, i as int),
{
    let base: usize = 8 * i;
    (v[base] as u64) + 0x100 * (v[base + 1] as u64) + 0x1_0000 * (v[base + 2] as u64) + 0x100_0000
        * (v[base + 3] as u64) + 0x1_0000_0000 * (v[base + 4] as u64) + 0x100_0000_0000 * (v[base
        + 5] as u64) + 0x1_0000_0000_0000 * (v[base + 6] as u64) + 0x100_0000_0000_0000 * (v[base
        + 7] as u64)
}

} // verus!
