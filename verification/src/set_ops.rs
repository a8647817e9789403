//! Construction of 512-bit vectors: explicit lanes, reversed lanes,
//! broadcast of one scalar, and the zero vector.
//!
//! In `_mm512_set_*` the parameters are written highest lane first, as in
//! the corresponding Intel intrinsics, so the last parameter is lane 0; in
//! `_mm512_setr_*` the first parameter is lane 0.

use vstd::prelude::*;

use crate::lanes::{lane16, lane32, lane64, u8_bits, u16_bits, u32_bits, u64_bits, to_u8_bits,
    to_u16_bits, to_u32_bits, to_u64_bits, push_le16, push_le32, push_le64};
use crate::vector::{__m512i, from_bytes};

verus! {

/// Sets the 64 packed 8-bit lanes; `e00` is lane 0.
#[verifier::rlimit(100)]
pub fn _mm512_set_epi8(
    e63: i8, e62: i8, e61: i8, e60: i8, e59: i8, e58: i8, e57: i8, e56: i8,
    e55: i8, e54: i8, e53: i8, e52: i8, e51: i8, e50: i8, e49: i8, e48: i8,
    e47: i8, e46: i8, e45: i8, e44: i8, e43: i8, e42: i8, e41: i8, e40: i8,
    e39: i8, e38: i8, e37: i8, e36: i8, e35: i8, e34: i8, e33: i8, e32: i8,
    e31: i8, e30: i8, e29: i8, e28: i8, e27: i8, e26: i8, e25: i8, e24: i8,
    e23: i8, e22: i8, e21: i8, e20: i8, e19: i8, e18: i8, e17: i8, e16: i8,
    e15: i8, e14: i8, e13: i8, e12: i8, e11: i8, e10: i8, e09: i8, e08: i8,
    e07: i8, e06: i8, e05: i8, e04: i8, e03: i8, e02: i8, e01: i8, e00: i8,
) -> (r: __m512i)
    ensures
        r@.len() == 64,
        r@[0] == u8_bits(e00),
        r@[1] == u8_bits(e01),
        r@[2] == u8_bits(e02),
        r@[3] == u8_bits(e03),
        r@[4] == u8_bits(e04),
        r@[5] == u8_bits(e05),
        r@[6] == u8_bits(e06),
        r@[7] == u8_bits(e07),
        r@[8] == u8_bits(e08),
        r@[9] == u8_bits(e09),
        r@[10] == u8_bits(e10),
        r@[11] == u8_bits(e11),
        r@[12] == u8_bits(e12),
        r@[13] == u8_bits(e13),
        r@[14] == u8_bits(e14),
        r@[15] == u8_bits(e15),
        r@[16] == u8_bits(e16),
        r@[17] == u8_bits(e17),
        r@[18] == u8_bits(e18),
        r@[19] == u8_bits(e19),
        r@[20] == u8_bits(e20),
        r@[21] == u8_bits(e21),
        r@[22] == u8_bits(e22),
        r@[23] == u8_bits(e23),
        r@[24] == u8_bits(e24),
        r@[25] == u8_bits(e25),
        r@[26] == u8_bits(e26),
        r@[27] == u8_bits(e27),
        r@[28] == u8_bits(e28),
        r@[29] == u8_bits(e29),
        r@[30] == u8_bits(e30),
        r@[31] == u8_bits(e31),
        r@[32] == u8_bits(e32),
        r@[33] == u8_bits(e33),
        r@[34] == u8_bits(e34),
        r@[35] == u8_bits(e35),
        r@[36] == u8_bits(e36),
        r@[37] == u8_bits(e37),
        r@[38] == u8_bits(e38),
        r@[39] == u8_bits(e39),
        r@[40] == u8_bits(e40),
        r@[41] == u8_bits(e41),
        r@[42] == u8_bits(e42),
        r@[43] == u8_bits(e43),
        r@[44] == u8_bits(e44),
        r@[45] == u8_bits(e45),
        r@[46] == u8_bits(e46),
        r@[47] == u8_bits(e47),
        r@[48] == u8_bits(e48),
        r@[49] == u8_bits(e49),
        r@[50] == u8_bits(e50),
        r@[51] == u8_bits(e51),
        r@[52] == u8_bits(e52),
        r@[53] == u8_bits(e53),
        r@[54] == u8_bits(e54),
        r@[55] == u8_bits(e55),
        r@[56] == u8_bits(e56),
        r@[57] == u8_bits(e57),
        r@[58] == u8_bits(e58),
        r@[59] == u8_bits(e59),
        r@[60] == u8_bits(e60),
        r@[61] == u8_bits(e61),
        r@[62] == u8_bits(e62),
        r@[63] == u8_bits(e63),
{
    let mut v: Vec<u8> = Vec::new();
    v.push(to_u8_bits(e00));
    v.push(to_u8_bits(e01));
    v.push(to_u8_bits(e02));
    v.push(to_u8_bits(e03));
    v.push(to_u8_bits(e04));
    v.push(to_u8_bits(e05));
    v.push(to_u8_bits(e06));
    v.push(to_u8_bits(e07));
    v.push(to_u8_bits(e08));
    v.push(to_u8_bits(e09));
    v.push(to_u8_bits(e10));
    v.push(to_u8_bits(e11));
    v.push(to_u8_bits(e12));
    v.push(to_u8_bits(e13));
    v.push(to_u8_bits(e14));
    v.push(to_u8_bits(e15));
    v.push(to_u8_bits(e16));
    v.push(to_u8_bits(e17));
    v.push(to_u8_bits(e18));
    v.push(to_u8_bits(e19));
    v.push(to_u8_bits(e20));
    v.push(to_u8_bits(e21));
    v.push(to_u8_bits(e22));
    v.push(to_u8_bits(e23));
    v.push(to_u8_bits(e24));
    v.push(to_u8_bits(e25));
    v.push(to_u8_bits(e26));
    v.push(to_u8_bits(e27));
    v.push(to_u8_bits(e28));
    v.push(to_u8_bits(e29));
    v.push(to_u8_bits(e30));
    v.push(to_u8_bits(e31));
    v.push(to_u8_bits(e32));
    v.push(to_u8_bits(e33));
    v.push(to_u8_bits(e34));
    v.push(to_u8_bits(e35));
    v.push(to_u8_bits(e36));
    v.push(to_u8_bits(e37));
    v.push(to_u8_bits(e38));
    v.push(to_u8_bits(e39));
    v.push(to_u8_bits(e40));
    v.push(to_u8_bits(e41));
    v.push(to_u8_bits(e42));
    v.push(to_u8_bits(e43));
    v.push(to_u8_bits(e44));
    v.push(to_u8_bits(e45));
    v.push(to_u8_bits(e46));
    v.push(to_u8_bits(e47));
    v.push(to_u8_bits(e48));
    v.push(to_u8_bits(e49));
    v.push(to_u8_bits(e50));
    v.push(to_u8_bits(e51));
    v.push(to_u8_bits(e52));
    v.push(to_u8_bits(e53));
    v.push(to_u8_bits(e54));
    v.push(to_u8_bits(e55));
    v.push(to_u8_bits(e56));
    v.push(to_u8_bits(e57));
    v.push(to_u8_bits(e58));
    v.push(to_u8_bits(e59));
    v.push(to_u8_bits(e60));
    v.push(to_u8_bits(e61));
    v.push(to_u8_bits(e62));
    v.push(to_u8_bits(e63));
    from_bytes(v)
}

/// Sets the 32 packed 16-bit lanes; `e00` is lane 0.
pub fn _mm512_set_epi16(
    e31: i16, e30: i16, e29: i16, e28: i16, e27: i16, e26: i16, e25: i16, e24: i16,
    e23: i16, e22: i16, e21: i16, e20: i16, e19: i16, e18: i16, e17: i16, e16: i16,
    e15: i16, e14: i16, e13: i16, e12: i16, e11: i16, e10: i16, e09: i16, e08: i16,
    e07: i16, e06: i16, e05: i16, e04: i16, e03: i16, e02: i16, e01: i16, e00: i16,
) -> (r: __m512i)
    ensures
        r@.len() == 64,
        lane16(r@, 0) == u16_bits(e00),
        lane16(r@, 1) == u16_bits(e01),
        lane16(r@, 2) == u16_bits(e02),
        lane16(r@, 3) == u16_bits(e03),
        lane16(r@, 4) == u16_bits(e04),
        lane16(r@, 5) == u16_bits(e05),
        lane16(r@, 6) == u16_bits(e06),
        lane16(r@, 7) == u16_bits(e07),
        lane16(r@, 8) == u16_bits(e08),
        lane16(r@, 9) == u16_bits(e09),
        lane16(r@, 10) == u16_bits(e10),
        lane16(r@, 11) == u16_bits(e11),
        lane16(r@, 12) == u16_bits(e12),
        lane16(r@, 13) == u16_bits(e13),
        lane16(r@, 14) == u16_bits(e14),
        lane16(r@, 15) == u16_bits(e15),
        lane16(r@, 16) == u16_bits(e16),
        lane16(r@, 17) == u16_bits(e17),
        lane16(r@, 18) == u16_bits(e18),
        lane16(r@, 19) == u16_bits(e19),
        lane16(r@, 20) == u16_bits(e20),
        lane16(r@, 21) == u16_bits(e21),
        lane16(r@, 22) == u16_bits(e22),
        lane16(r@, 23) == u16_bits(e23),
        lane16(r@, 24) == u16_bits(e24),
        lane16(r@, 25) == u16_bits(e25),
        lane16(r@, 26) == u16_bits(e26),
        lane16(r@, 27) == u16_bits(e27),
        lane16(r@, 28) == u16_bits(e28),
        lane16(r@, 29) == u16_bits(e29),
        lane16(r@, 30) == u16_bits(e30),
        lane16(r@, 31) == u16_bits(e31),
{
    let mut v: Vec<u8> = Vec::new();
    push_le16(&mut v, to_u16_bits(e00));
    push_le16(&mut v, to_u16_bits(e01));
    push_le16(&mut v, to_u16_bits(e02));
    push_le16(&mut v, to_u16_bits(e03));
    push_le16(&mut v, to_u16_bits(e04));
    push_le16(&mut v, to_u16_bits(e05));
    push_le16(&mut v, to_u16_bits(e06));
    push_le16(&mut v, to_u16_bits(e07));
    push_le16(&mut v, to_u16_bits(e08));
    push_le16(&mut v, to_u16_bits(e09));
    push_le16(&mut v, to_u16_bits(e10));
    push_le16(&mut v, to_u16_bits(e11));
    push_le16(&mut v, to_u16_bits(e12));
    push_le16(&mut v, to_u16_bits(e13));
    push_le16(&mut v, to_u16_bits(e14));
    push_le16(&mut v, to_u16_bits(e15));
    push_le16(&mut v, to_u16_bits(e16));
    push_le16(&mut v, to_u16_bits(e17));
    push_le16(&mut v, to_u16_bits(e18));
    push_le16(&mut v, to_u16_bits(e19));
    push_le16(&mut v, to_u16_bits(e20));
    push_le16(&mut v, to_u16_bits(e21));
    push_le16(&mut v, to_u16_bits(e22));
    push_le16(&mut v, to_u16_bits(e23));
    push_le16(&mut v, to_u16_bits(e24));
    push_le16(&mut v, to_u16_bits(e25));
    push_le16(&mut v, to_u16_bits(e26));
    push_le16(&mut v, to_u16_bits(e27));
    push_le16(&mut v, to_u16_bits(e28));
    push_le16(&mut v, to_u16_bits(e29));
    push_le16(&mut v, to_u16_bits(e30));
    push_le16(&mut v, to_u16_bits(e31));
    from_bytes(v)
}

/// Sets the 16 packed 32-bit lanes; `e00` is lane 0.
pub fn _mm512_set_epi32(
    e15: i32, e14: i32, e13: i32, e12: i32, e11: i32, e10: i32, e09: i32, e08: i32,
    e07: i32, e06: i32, e05: i32, e04: i32, e03: i32, e02: i32, e01: i32, e00: i32,
) -> (r: __m512i)
    ensures
        r@.len() == 64,
        lane32(r@, 0) == u32_bits(e00),
        lane32(r@, 1) == u32_bits(e01),
        lane32(r@, 2) == u32_bits(e02),
        lane32(r@, 3) == u32_bits(e03),
        lane32(r@, 4) == u32_bits(e04),
        lane32(r@, 5) == u32_bits(e05),
        lane32(r@, 6) == u32_bits(e06),
        lane32(r@, 7) == u32_bits(e07),
        lane32(r@, 8) == u32_bits(e08),
        lane32(r@, 9) == u32_bits(e09),
        lane32(r@, 10) == u32_bits(e10),
        lane32(r@, 11) == u32_bits(e11),
        lane32(r@, 12) == u32_bits(e12),
        lane32(r@, 13) == u32_bits(e13),
        lane32(r@, 14) == u32_bits(e14),
        lane32(r@, 15) == u32_bits(e15),
{
    let mut v: Vec<u8> = Vec::new();
    push_le32(&mut v, to_u32_bits(e00));
    push_le32(&mut v, to_u32_bits(e01));
    push_le32(&mut v, to_u32_bits(e02));
    push_le32(&mut v, to_u32_bits(e03));
    push_le32(&mut v, to_u32_bits(e04));
    push_le32(&mut v, to_u32_bits(e05));
    push_le32(&mut v, to_u32_bits(e06));
    push_le32(&mut v, to_u32_bits(e07));
    push_le32(&mut v, to_u32_bits(e08));
    push_le32(&mut v, to_u32_bits(e09));
    push_le32(&mut v, to_u32_bits(e10));
    push_le32(&mut v, to_u32_bits(e11));
    push_le32(&mut v, to_u32_bits(e12));
    push_le32(&mut v, to_u32_bits(e13));
    push_le32(&mut v, to_u32_bits(e14));
    push_le32(&mut v, to_u32_bits(e15));
    from_bytes(v)
}

/// Sets the 16 packed 32-bit lanes in reverse order; `e15`, the first
/// parameter, is lane 0.
pub fn _mm512_setr_epi32(
    e15: i32, e14: i32, e13: i32, e12: i32, e11: i32, e10: i32, e09: i32, e08: i32,
    e07: i32, e06: i32, e05: i32, e04: i32, e03: i32, e02: i32, e01: i32, e00: i32,
) -> (r: __m512i)
    ensures
        r@.len() == 64,
        lane32(r@, 0) == u32_bits(e15),
        lane32(r@, 1) == u32_bits(e14),
        lane32(r@, 2) == u32_bits(e13),
        lane32(r@, 3) == u32_bits(e12),
        lane32(r@, 4) == u32_bits(e11),
        lane32(r@, 5) == u32_bits(e10),
        lane32(r@, 6) == u32_bits(e09),
        lane32(r@, 7) == u32_bits(e08),
        lane32(r@, 8) == u32_bits(e07),
        lane32(r@, 9) == u32_bits(e06),
        lane32(r@, 10) == u32_bits(e05),
        lane32(r@, 11) == u32_bits(e04),
        lane32(r@, 12) == u32_bits(e03),
        lane32(r@, 13) == u32_bits(e02),
        lane32(r@, 14) == u32_bits(e01),
        lane32(r@, 15) == u32_bits(e00),
{
    _mm512_set_epi32(e00, e01, e02, e03, e04, e05, e06, e07, e08, e09, e10, e11, e12, e13, e14, e15)
}

/// Sets the 8 packed 64-bit lanes; `e0` is lane 0.
pub fn _mm512_set_epi64(
    e7: i64, e6: i64, e5: i64, e4: i64, e3: i64, e2: i64, e1: i64, e0: i64,
) -> (r: __m512i)
    ensures
        r@.len() == 64,
        lane64(r@, 0) == u64_bits(e0),
        lane64(r@, 1) == u64_bits(e1),
        lane64(r@, 2) == u64_bits(e2),
        lane64(r@, 3) == u64_bits(e3),
        lane64(r@, 4) == u64_bits(e4),
        lane64(r@, 5) == u64_bits(e5),
        lane64(r@, 6) == u64_bits(e6),
        lane64(r@, 7) == u64_bits(e7),
{
    let mut v: Vec<u8> = Vec::new();
    push_le64(&mut v, to_u64_bits(e0));
    push_le64(&mut v, to_u64_bits(e1));
    push_le64(&mut v, to_u64_bits(e2));
    push_le64(&mut v, to_u64_bits(e3));
    push_le64(&mut v, to_u64_bits(e4));
    push_le64(&mut v, to_u64_bits(e5));
    push_le64(&mut v, to_u64_bits(e6));
    push_le64(&mut v, to_u64_bits(e7));
    from_bytes(v)
}

/// Sets the 8 packed 64-bit lanes in reverse order; `e7`, the first
/// parameter, is lane 0.
pub fn _mm512_setr_epi64(
    e7: i64, e6: i64, e5: i64, e4: i64, e3: i64, e2: i64, e1: i64, e0: i64,
) -> (r: __m512i)
    ensures
        r@.len() == 64,
        lane64(r@, 0) == u64_bits(e7),
        lane64(r@, 1) == u64_bits(e6),
        lane64(r@, 2) == u64_bits(e5),
        lane64(r@, 3) == u64_bits(e4),
        lane64(r@, 4) == u64_bits(e3),
        lane64(r@, 5) == u64_bits(e2),
        lane64(r@, 6) == u64_bits(e1),
        lane64(r@, 7) == u64_bits(e0),
{
    _mm512_set_epi64(e0, e1, e2, e3, e4, e5, e6, e7)
}

/// Broadcasts the 8-bit integer `a` to all 64 lanes.
pub fn _mm512_set1_epi8(a: i8) -> (r: __m512i)
    ensures
        r@.len() == 64,
        forall|i: int| 0 <= i < 64 ==> r@[i] == u8_bits(a),
{
    _mm512_set_epi8(
        a, a, a, a, a, a, a, a,
        a, a, a, a, a, a, a, a,
        a, a, a, a, a, a, a, a,
        a, a, a, a, a, a, a, a,
        a, a, a, a, a, a, a, a,
        a, a, a, a, a, a, a, a,
        a, a, a, a, a, a, a, a,
        a, a, a, a, a, a, a, a,
    )
}

/// Broadcasts the 16-bit integer `a` to all 32 lanes.
pub fn _mm512_set1_epi16(a: i16) -> (r: __m512i)
    ensures
        r@.len() == 64,
        forall|i: int| 0 <= i < 32 ==> lane16(r@, i) == u16_bits(a),
{
    _mm512_set_epi16(
        a, a, a, a, a, a, a, a, a, a, a, a, a, a, a, a,
        a, a, a, a, a, a, a, a, a, a, a, a, a, a, a, a,
    )
}

/// Broadcasts the 32-bit integer `a` to all 16 lanes.
pub fn _mm512_set1_epi32(a: i32) -> (r: __m512i)
    ensures
        r@.len() == 64,
        forall|i: int| 0 <= i < 16 ==> lane32(r@, i) == u32_bits(a),
{
    _mm512_set_epi32(
        a, a, a, a, a, a, a, a,
        a, a, a, a, a, a, a, a,
    )
}

/// Broadcasts the 64-bit integer `a` to all 8 lanes.
pub fn _mm512_set1_epi64(a: i64) -> (r: __m512i)
    ensures
        r@.len() == 64,
        forall|i: int| 0 <= i < 8 ==> lane64(r@, i) == u64_bits(a),
{
    _mm512_set_epi64(a, a, a, a, a, a, a, a)
}

/// The all-zero 512-bit vector.
pub fn _mm512_setzero_si512() -> (r: __m512i)
    ensures
        r@.len() == 64,
        forall|i: int| 0 <= i < 64 ==> r@[i] == 0,
{
    _mm512_set1_epi8(0)
}

} // verus!
