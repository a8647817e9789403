//! A verified model of the AVX-512F packed-integer operations.
//!
//! A 512-bit vector is 64 bytes; the lanes of every width (8, 16, 32 and
//! 64 bits) are little-endian views of those bytes, stated as spec
//! functions over the byte sequence. Each operation carries a contract
//! that pins down every lane of its result, including two's-complement
//! wraparound on addition and the writemask/zeromask selection rules.
#![allow(non_camel_case_types)]

pub mod add_ops;
pub mod lanes;
pub mod set_ops;
pub mod vector;

pub use add_ops::{
    _mm512_add_epi16, _mm512_add_epi32, _mm512_add_epi64, _mm512_add_epi8, _mm512_mask_add_epi64,
    _mm512_maskz_add_epi64,
};
pub use set_ops::{
    _mm512_set1_epi16, _mm512_set1_epi32, _mm512_set1_epi64, _mm512_set1_epi8, _mm512_set_epi16,
    _mm512_set_epi32, _mm512_set_epi64, _mm512_set_epi8, _mm512_setr_epi32, _mm512_setr_epi64,
    _mm512_setzero_si512,
};
pub use vector::{__m512i, __mmask8};
