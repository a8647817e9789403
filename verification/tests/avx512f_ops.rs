use avx512f::{
    _mm512_add_epi16, _mm512_add_epi32, _mm512_add_epi64, _mm512_add_epi8, _mm512_mask_add_epi64,
    _mm512_maskz_add_epi64, _mm512_set1_epi16, _mm512_set1_epi32, _mm512_set1_epi64,
    _mm512_set1_epi8, _mm512_set_epi16, _mm512_set_epi32, _mm512_set_epi64, _mm512_set_epi8,
    _mm512_setr_epi32, _mm512_setr_epi64, _mm512_setzero_si512, __mmask8,
};

#[test]
fn test_mm512_add_epi64() {
    let a = _mm512_set_epi64(-10, 0, 100, 1_000_000_000, -10, 0, 100, 1_000_000_000);
    let b = _mm512_set_epi64(-1, 0, 1, 2, -1, 0, 1, 2);
    let r = _mm512_add_epi64(a, b);
    let e = _mm512_set_epi64(-11, 0, 101, 1_000_000_002, -11, 0, 101, 1_000_000_002);
    assert_eq!(r, e);
}

#[test]
fn test_mm512_add_epi32() {
    let a = _mm512_set_epi32(-1, 0, 1, 2, 3, 4, 5, 6, -1, 0, 1, 2, 3, 4, 5, 6);
    let b = _mm512_set_epi32(1, 2, 3, 4, 5, 6, 7, 8, 1, 2, 3, 4, 5, 6, 7, 8);
    let r = _mm512_add_epi32(a, b);
    let e = _mm512_set_epi32(0, 2, 4, 6, 8, 10, 12, 14, 0, 2, 4, 6, 8, 10, 12, 14);
    assert_eq!(r, e);
}

#[test]
fn test_mm512_add_epi16() {
    let a = _mm512_set_epi16(
        0, 1, 2, 3, 4, 5, 6, 7, 8, 9, 10, 11, 12, 13, 14, 15, 0, 1, 2, 3, 4, 5, 6, 7, 8, 9, 10,
        11, 12, 13, 14, 15,
    );
    let b = _mm512_set_epi16(
        0, 1, 2, 3, 4, 5, 6, 7, 8, 9, 10, 11, 12, 13, 14, 15, 0, 1, 2, 3, 4, 5, 6, 7, 8, 9, 10,
        11, 12, 13, 14, 15,
    );
    let r = _mm512_add_epi16(a, b);
    let e = _mm512_set_epi16(
        0, 2, 4, 6, 8, 10, 12, 14, 16, 18, 20, 22, 24, 26, 28, 30, 0, 2, 4, 6, 8, 10, 12, 14, 16,
        18, 20, 22, 24, 26, 28, 30,
    );
    assert_eq!(r, e);
}

#[test]
fn test_mm512_add_epi8() {
    let a = _mm512_set_epi8(
        0, 1, 2, 3, 4, 5, 6, 7, 8, 9, 10, 11, 12, 13, 14, 15, 16, 17, 18, 19, 20, 21, 22, 23, 24,
        25, 26, 27, 28, 29, 30, 31, 0, 1, 2, 3, 4, 5, 6, 7, 8, 9, 10, 11, 12, 13, 14, 15, 16, 17,
        18, 19, 20, 21, 22, 23, 24, 25, 26, 27, 28, 29, 30, 31,
    );
    let b = _mm512_set_epi8(
        0, 1, 2, 3, 4, 5, 6, 7, 8, 9, 10, 11, 12, 13, 14, 15, 16, 17, 18, 19, 20, 21, 22, 23, 24,
        25, 26, 27, 28, 29, 30, 31, 0, 1, 2, 3, 4, 5, 6, 7, 8, 9, 10, 11, 12, 13, 14, 15, 16, 17,
        18, 19, 20, 21, 22, 23, 24, 25, 26, 27, 28, 29, 30, 31,
    );
    let r = _mm512_add_epi8(a, b);
    let e = _mm512_set_epi8(
        0, 2, 4, 6, 8, 10, 12, 14, 16, 18, 20, 22, 24, 26, 28, 30, 32, 34, 36, 38, 40, 42, 44, 46,
        48, 50, 52, 54, 56, 58, 60, 62, 0, 2, 4, 6, 8, 10, 12, 14, 16, 18, 20, 22, 24, 26, 28, 30,
        32, 34, 36, 38, 40, 42, 44, 46, 48, 50, 52, 54, 56, 58, 60, 62,
    );
    assert_eq!(r, e);
}

#[test]
fn test_mm512_setzero_si512() {
    let z = _mm512_setzero_si512();
    assert_eq!(z.to_bytes(), vec![0u8; 64]);
}

#[test]
fn test_mm512_set_epi64_little_endian_bytes() {
    let v = _mm512_set_epi64(0, 0, 0, 0, 0, 0, 0, 0x0102030405060708);
    let bytes = v.to_bytes();
    assert_eq!(&bytes[0..8], &[8, 7, 6, 5, 4, 3, 2, 1]);
    assert_eq!(&bytes[8..64], &[0u8; 56][..]);
}

#[test]
fn test_mm512_set1_epi8_bytes() {
    let v = _mm512_set1_epi8(-1);
    assert_eq!(v.to_bytes(), vec![0xFFu8; 64]);
    let w = _mm512_set1_epi8(7);
    assert_eq!(w.to_bytes(), vec![7u8; 64]);
}

#[test]
fn test_mm512_set1_epi16_bytes() {
    let v = _mm512_set1_epi16(-2);
    let bytes = v.to_bytes();
    for i in 0..32 {
        assert_eq!(bytes[2 * i], 0xFE);
        assert_eq!(bytes[2 * i + 1], 0xFF);
    }
}

#[test]
fn test_mm512_set1_epi32_matches_set() {
    let v = _mm512_set1_epi32(-123456);
    let e = _mm512_set_epi32(
        -123456, -123456, -123456, -123456, -123456, -123456, -123456, -123456, -123456, -123456,
        -123456, -123456, -123456, -123456, -123456, -123456,
    );
    assert_eq!(v, e);
}

#[test]
fn test_mm512_set1_epi64_matches_set() {
    let v = _mm512_set1_epi64(-3);
    let e = _mm512_set_epi64(-3, -3, -3, -3, -3, -3, -3, -3);
    assert_eq!(v, e);
}

#[test]
fn test_mm512_setr_epi32_reverses_set() {
    let r = _mm512_setr_epi32(1, 2, 3, 4, 5, 6, 7, 8, 9, 10, 11, 12, 13, 14, 15, 16);
    let e = _mm512_set_epi32(16, 15, 14, 13, 12, 11, 10, 9, 8, 7, 6, 5, 4, 3, 2, 1);
    assert_eq!(r, e);
}

#[test]
fn test_mm512_setr_epi64_reverses_set() {
    let r = _mm512_setr_epi64(1, 2, 3, 4, 5, 6, 7, 8);
    let e = _mm512_set_epi64(8, 7, 6, 5, 4, 3, 2, 1);
    assert_eq!(r, e);
}

#[test]
fn test_mm512_add_epi8_wraps() {
    let r = _mm512_add_epi8(_mm512_set1_epi8(127), _mm512_set1_epi8(1));
    assert_eq!(r, _mm512_set1_epi8(-128));
    let s = _mm512_add_epi8(_mm512_set1_epi8(-1), _mm512_set1_epi8(1));
    assert_eq!(s, _mm512_set1_epi8(0));
}

#[test]
fn test_mm512_add_epi16_wraps() {
    let r = _mm512_add_epi16(_mm512_set1_epi16(i16::MAX), _mm512_set1_epi16(1));
    assert_eq!(r, _mm512_set1_epi16(i16::MIN));
}

#[test]
fn test_mm512_add_epi32_wraps() {
    let r = _mm512_add_epi32(_mm512_set1_epi32(i32::MAX), _mm512_set1_epi32(1));
    assert_eq!(r, _mm512_set1_epi32(i32::MIN));
}

#[test]
fn test_mm512_add_epi64_wraps() {
    let r = _mm512_add_epi64(_mm512_set1_epi64(i64::MAX), _mm512_set1_epi64(1));
    assert_eq!(r, _mm512_set1_epi64(i64::MIN));
}

#[test]
fn test_mm512_mask_add_epi64() {
    let src = _mm512_set1_epi64(5);
    let a = _mm512_set1_epi64(10);
    let b = _mm512_set1_epi64(20);
    let r = _mm512_mask_add_epi64(src, __mmask8(0b1010_1010), a, b);
    let e = _mm512_set_epi64(30, 5, 30, 5, 30, 5, 30, 5);
    assert_eq!(r, e);
}

#[test]
fn test_mm512_mask_add_epi64_all_or_nothing() {
    let src = _mm512_set_epi64(1, 2, 3, 4, 5, 6, 7, 8);
    let a = _mm512_set_epi64(10, 20, 30, 40, 50, 60, 70, 80);
    let b = _mm512_set_epi64(1, 1, 1, 1, 1, 1, 1, 1);
    let kept = _mm512_mask_add_epi64(src, __mmask8(0), a, b);
    assert_eq!(kept, _mm512_set_epi64(1, 2, 3, 4, 5, 6, 7, 8));
    let src2 = _mm512_set_epi64(1, 2, 3, 4, 5, 6, 7, 8);
    let a2 = _mm512_set_epi64(10, 20, 30, 40, 50, 60, 70, 80);
    let b2 = _mm512_set_epi64(1, 1, 1, 1, 1, 1, 1, 1);
    let summed = _mm512_mask_add_epi64(src2, __mmask8(0xFF), a2, b2);
    assert_eq!(summed, _mm512_set_epi64(11, 21, 31, 41, 51, 61, 71, 81));
}

#[test]
fn test_mm512_maskz_add_epi64() {
    let a = _mm512_set1_epi64(10);
    let b = _mm512_set1_epi64(20);
    let r = _mm512_maskz_add_epi64(__mmask8(0b1010_1010), a, b);
    let e = _mm512_set_epi64(30, 0, 30, 0, 30, 0, 30, 0);
    assert_eq!(r, e);
}

#[test]
fn test_mm512_set_epi8_lane_order() {
    let mut args = [0i8; 64];
    args[63] = 1; // e00, lane 0
    args[0] = 2; // e63, lane 63
    let v = _mm512_set_epi8(
        args[0], args[1], args[2], args[3], args[4], args[5], args[6], args[7], args[8], args[9],
        args[10], args[11], args[12], args[13], args[14], args[15], args[16], args[17], args[18],
        args[19], args[20], args[21], args[22], args[23], args[24], args[25], args[26], args[27],
        args[28], args[29], args[30], args[31], args[32], args[33], args[34], args[35], args[36],
        args[37], args[38], args[39], args[40], args[41], args[42], args[43], args[44], args[45],
        args[46], args[47], args[48], args[49], args[50], args[51], args[52], args[53], args[54],
        args[55], args[56], args[57], args[58], args[59], args[60], args[61], args[62], args[63],
    );
    let bytes = v.to_bytes();
    assert_eq!(bytes[0], 1);
    assert_eq!(bytes[63], 2);
    for i in 1..63 {
        assert_eq!(bytes[i], 0);
    }
}

#[test]
fn test_mm512_set_epi16_lane_order() {
    let v = _mm512_set_epi16(
        0, 0, 0, 0, 0, 0, 0, 0, 0, 0, 0, 0, 0, 0, 0, 0, 0, 0, 0, 0, 0, 0, 0, 0, 0, 0, 0, 0, 0, 0,
        0, 0x1234,
    );
    let bytes = v.to_bytes();
    assert_eq!(bytes[0], 0x34);
    assert_eq!(bytes[1], 0x12);
    for i in 2..64 {
        assert_eq!(bytes[i], 0);
    }
}
