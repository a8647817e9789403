//! Packed addition on 512-bit vectors: lane-wise wrapping addition at
//! every width, and the writemask / zeromask variants for 64-bit lanes.

use vstd::prelude::*;

use crate::lanes::{lane16, lane32, lane64, mask_bit, mask_bit_set, push_le16, push_le32,
    push_le64, read_lane16, read_lane32, read_lane64, sum8, sum16, sum32, sum64};
use crate::set_ops::_mm512_setzero_si512;
use crate::vector::{__m512i, __mmask8, bytes_of, from_bytes};

verus! {

pub(crate) fn wrap_add8(x: u8, y: u8) -> (r: u8)
    ensures
        r == sum8(x, y),
{
    x.wrapping_add(y)
}

pub(crate) fn wrap_add16(x: u16, y: u16) -> (r: u16)
    ensures
        r == sum16(x, y),
{
    x.wrapping_add(y)
}

pub(crate) fn wrap_add32(x: u32, y: u32) -> (r: u32)
    ensures
        r == sum32(x, y),
{
    x.wrapping_add(y)
}

pub(crate) fn wrap_add64(x: u64, y: u64) -> (r: u64)
    ensures
        r == sum64(x, y),
{
    x.wrapping_add(y)
}

/// Adds the packed 8-bit lanes of `a` and `b`, wrapping modulo 2^8.
pub fn _mm512_add_epi8(a: __m512i, b: __m512i) -> (r: __m512i)
    ensures
        r@.len() == 64,
        forall|i: int| 0 <= i < 64 ==> r@[i] == sum8(a@[i], b@[i]),
{
    let av = bytes_of(&a);
    let bv = bytes_of(&b);
    let mut v: Vec<u8> = Vec::new();
    let mut i: usize = 0;
    while i < 64
        invariant
            av@ == a@,
            bv@ == b@,
            a@.len() == 64,
            b@.len() == 64,
            i <= 64,
            v@.len() == i,
            forall|j: int| 0 <= j < i ==> v@[j] == sum8(a@[j], b@[j]),
        decreases 64 - i,
    {
        v.push(wrap_add8(av[i], bv[i]));
        i += 1;
    }
    from_bytes(v)
}

/// Adds the packed 16-bit lanes of `a` and `b`, wrapping modulo 2^16.
pub fn _mm512_add_epi16(a: __m512i, b: __m512i) -> (r: __m512i)
    ensures
        r@.len() == 64,
        forall|i: int| 0 <= i < 32 ==> lane16(r@, i) == sum16(lane16(a@, i), lane16(b@, i)),
{
    let av = bytes_of(&a);
    let bv = bytes_of(&b);
    let mut v: Vec<u8> = Vec::new();
    let mut i: usize = 0;
    while i < 32
        invariant
            av@ == a@,
            bv@ == b@,
            a@.len() == 64,
            b@.len() == 64,
            i <= 32,
            v@.len() == 2 * i,
            forall|j: int| 0 <= j < i ==> lane16(v@, j) == sum16(lane16(a@, j), lane16(b@, j)),
        decreases 32 - i,
    {
        let x: u16 = read_lane16(av, i);
        let y: u16 = read_lane16(bv, i);
        let ghost prev: Seq<u8> = v@;
        push_le16(&mut v, wrap_add16(x, y));
        proof {
            assert forall|j: int|
                0 <= j < i + 1 implies lane16(v@, j) == sum16(lane16(a@, j), lane16(b@, j)) by {
                if j < i {
                    assert(v@[2 * j] == prev[2 * j]);
                    assert(v@[2 * j + 1] == prev[2 * j + 1]);
                    assert(lane16(prev, j) == sum16(lane16(a@, j), lane16(b@, j)));
                }
            }
        }
        i += 1;
    }
    from_bytes(v)
}

/// Adds the packed 32-bit lanes of `a` and `b`, wrapping modulo 2^32.
pub fn _mm512_add_epi32(a: __m512i, b: __m512i) -> (r: __m512i)
    ensures
        r@.len() == 64,
        forall|i: int| 0 <= i < 16 ==> lane32(r@, i) == sum32(lane32(a@, i), lane32(b@, i)),
{
    let av = bytes_of(&a);
    let bv = bytes_of(&b);
    let mut v: Vec<u8> = Vec::new();
    let mut i: usize = 0;
    while i < 16
        invariant
            av@ == a@,
            bv@ == b@,
            a@.len() == 64,
            b@.len() == 64,
            i <= 16,
            v@.len() == 4 * i,
            forall|j: int| 0 <= j < i ==> lane32(v@, j) == sum32(lane32(a@, j), lane32(b@, j)),
        decreases 16 - i,
    {
        let x: u32 = read_lane32(av, i);
        let y: u32 = read_lane32(bv, i);
        let ghost prev: Seq<u8> = v@;
        push_le32(&mut v, wrap_add32(x, y));
        proof {
            assert forall|j: int|
                0 <= j < i + 1 implies lane32(v@, j) == sum32(lane32(a@, j), lane32(b@, j)) by {
                if j < i {
                    assert(v@[4 * j] == prev[4 * j]);
                    assert(v@[4 * j + 1] == prev[4 * j + 1]);
                    assert(v@[4 * j + 2] == prev[4 * j + 2]);
                    assert(v@[4 * j + 3] == prev[4 * j + 3]);
                    assert(lane32(prev, j) == sum32(lane32(a@, j), lane32(b@, j)));
                }
            }
        }
        i += 1;
    }
    from_bytes(v)
}

/// Adds the packed 64-bit lanes of `a` and `b`, wrapping modulo 2^64.
pub fn _mm512_add_epi64(a: __m512i, b: __m512i) -> (r: __m512i)
    ensures
        r@.len() == 64,
        forall|i: int| 0 <= i < 8 ==> lane64(r@, i) == sum64(lane64(a@, i), lane64(b@, i)),
{
    let av = bytes_of(&a);
    let bv = bytes_of(&b);
    let mut v: Vec<u8> = Vec::new();
    let mut i: usize = 0;
    while i < 8
        invariant
            av@ == a@,
            bv@ == b@,
            a@.len() == 64,
            b@.len() == 64,
            i <= 8,
            v@.len() == 8 * i,
            forall|j: int| 0 <= j < i ==> lane64(v@, j) == sum64(lane64(a@, j), lane64(b@, j)),
        decreases 8 - i,
    {
        let x: u64 = read_lane64(av, i);
        let y: u64 = read_lane64(bv, i);
        let ghost prev: Seq<u8> = v@;
        push_le64(&mut v, wrap_add64(x, y));
        proof {
            assert forall|j: int|
                0 <= j < i + 1 implies lane64(v@, j) == sum64(lane64(a@, j), lane64(b@, j)) by {
                if j < i {
                    assert(v@[8 * j] == prev[8 * j]);
                    assert(v@[8 * j + 1] == prev[8 * j + 1]);
                    assert(v@[8 * j + 2] == prev[8 * j + 2]);
                    assert(v@[8 * j + 3] == prev[8 * j + 3]);
                    assert(v@[8 * j + 4] == prev[8 * j + 4]);
                    assert(v@[8 * j + 5] == prev[8 * j + 5]);
                    assert(v@[8 * j + 6] == prev[8 * j + 6]);
                    assert(v@[8 * j + 7] == prev[8 * j + 7]);
                    assert(lane64(prev, j) == sum64(lane64(a@, j), lane64(b@, j)));
                }
            }
        }
        i += 1;
    }
    from_bytes(v)
}

/// Picks each 64-bit lane from `on` where the mask bit is set, else from
/// `off`.
fn select_lanes64(k: u8, on: &__m512i, off: &__m512i) -> (r: __m512i)
    ensures
        r@.len() == 64,
        forall|i: int|
            0 <= i < 8 ==> lane64(r@, i) == (if mask_bit(k, i) {
                lane64(on@, i)
            } else {
                lane64(off@, i)
            }),
{
    let onv = bytes_of(on);
    let offv = bytes_of(off);
    let mut v: Vec<u8> = Vec::new();
    let mut i: usize = 0;
    while i < 8
        invariant
            onv@ == on@,
            offv@ == off@,
            on@.len() == 64,
            off@.len() == 64,
            i <= 8,
            v@.len() == 8 * i,
            forall|j: int|
                0 <= j < i ==> lane64(v@, j) == (if mask_bit(k, j) {
                    lane64(on@, j)
                } else {
                    lane64(off@, j)
                }),
        decreases 8 - i,
    {
        let w: u64 = if mask_bit_set(k, i) {
            read_lane64(onv, i)
        } else {
            read_lane64(offv, i)
        };
        let ghost prev: Seq<u8> = v@;
        push_le64(&mut v, w);
        proof {
            assert forall|j: int|
                0 <= j < i + 1 implies lane64(v@, j) == (if mask_bit(k, j) {
                    lane64(on@, j)
                } else {
                    lane64(off@, j)
                }) by {
                if j < i {
                    assert(v@[8 * j] == prev[8 * j]);
                    assert(v@[8 * j + 1] == prev[8 * j + 1]);
                    assert(v@[8 * j + 2] == prev[8 * j + 2]);
                    assert(v@[8 * j + 3] == prev[8 * j + 3]);
                    assert(v@[8 * j + 4] == prev[8 * j + 4]);
                    assert(v@[8 * j + 5] == prev[8 * j + 5]);
                    assert(v@[8 * j + 6] == prev[8 * j + 6]);
                    assert(v@[8 * j + 7] == prev[8 * j + 7]);
                    assert(lane64(prev, j) == (if mask_bit(k, j) {
                        lane64(on@, j)
                    } else {
                        lane64(off@, j)
                    }));
                }
            }
        }
        i += 1;
    }
    from_bytes(v)
}

/// Adds the packed 64-bit lanes of `a` and `b` under writemask `k`: where
/// bit `i` of `k` is clear, lane `i` is copied from `src` instead.
pub fn _mm512_mask_add_epi64(src: __m512i, k: __mmask8, a: __m512i, b: __m512i) -> (r: __m512i)
    ensures
        r@.len() == 64,
        forall|i: int|
            0 <= i < 8 ==> lane64(r@, i) == (if mask_bit(k.0, i) {
                sum64(lane64(a@, i), lane64(b@, i))
            } else {
                lane64(src@, i)
            }),
{
    let summed = _mm512_add_epi64(a, b);
    select_lanes64(k.0, &summed, &src)
}

/// Adds the packed 64-bit lanes of `a` and `b` under zeromask `k`: where
/// bit `i` of `k` is clear, lane `i` is zero.
pub fn _mm512_maskz_add_epi64(k: __mmask8, a: __m512i, b: __m512i) -> (r: __m512i)
    ensures
        r@.len() == 64,
        forall|i: int|
            0 <= i < 8 ==> lane64(r@, i) == (if mask_bit(k.0, i) {
                sum64(lane64(a@, i), lane64(b@, i))
            } else {
                0
            }),
{
    let summed = _mm512_add_epi64(a, b);
    let zero = _mm512_setzero_si512();
    select_lanes64(k.0, &summed, &zero)
}

} // verus!
