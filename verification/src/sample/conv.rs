//! Pure conversion functions between the fixed-point sample formats.
//!
//! For every ordered pair of distinct formats there is one total function.
//! Each is specified to compute exactly [`conv_spec`] of its argument:
//! widening conversions scale up by a power of two, narrowing conversions
//! truncate the low-order bits (lossy by design, not an error), and
//! signed/unsigned conversions re-bias by half the range so that silence
//! maps to silence.  None of them allocates or panics.
//!
//! The [`FromSample`] and [`ToSample`] traits expose the same conversions
//! generically, so code can ask for "a sample of type `S`" and let the
//! target type pick the conversion.

use vstd::prelude::*;
use vstd::arithmetic::power2::{lemma2_to64, lemma2_to64_rest};
use crate::sample::fmt::{SampleFmt, conv_spec, lemma_conv_biased};
use crate::sample::types::{
    I24, I48, U24, U48, lemma_i24_from_view, lemma_i48_from_view, lemma_u24_from_view,
    lemma_u48_from_view,
};

verus! {

/// Converts a signed 8-bit sample to signed 16-bit, widening it by a power of two.
pub fn i8_to_i16(s: i8) -> (r: i16)
    ensures
        r as int == conv_spec(s as int, SampleFmt::I8, SampleFmt::I16),
{
    proof {
        lemma2_to64();
        lemma2_to64_rest();
        lemma_conv_biased(s as int, SampleFmt::I8, SampleFmt::I16);
        assert(conv_spec(s as int, SampleFmt::I8, SampleFmt::I16) == (s as int + 128) * 256 - 32_768);
    }
    let u: u64 = (s as i64 + 128) as u64;
    let m: u64 = u * 256u64;
    (m as i64 - 32_768) as i16
}

/// Converts a signed 8-bit sample to signed 24-bit, widening it by a power of two.
pub fn i8_to_i24(s: i8) -> (r: I24)
    ensures
        r@ == conv_spec(s as int, SampleFmt::I8, SampleFmt::I24),
{
    proof {
        lemma2_to64();
        lemma2_to64_rest();
        lemma_conv_biased(s as int, SampleFmt::I8, SampleFmt::I24);
        assert(conv_spec(s as int, SampleFmt::I8, SampleFmt::I24) == (s as int + 128) * 65_536 - 8_388_608);
    }
    let u: u64 = (s as i64 + 128) as u64;
    let m: u64 = u * 65_536u64;
    I24::new_unchecked((m as i64 - 8_388_608) as i32)
}

/// Converts a signed 8-bit sample to signed 32-bit, widening it by a power of two.
pub fn i8_to_i32(s: i8) -> (r: i32)
    ensures
        r as int == conv_spec(s as int, SampleFmt::I8, SampleFmt::I32),
{
    proof {
        lemma2_to64();
        lemma2_to64_rest();
        lemma_conv_biased(s as int, SampleFmt::I8, SampleFmt::I32);
        assert(conv_spec(s as int, SampleFmt::I8, SampleFmt::I32) == (s as int + 128) * 16_777_216 - 2_147_483_648);
    }
    let u: u64 = (s as i64 + 128) as u64;
    let m: u64 = u * 16_777_216u64;
    (m as i64 - 2_147_483_648) as i32
}

/// Converts a signed 8-bit sample to signed 48-bit, widening it by a power of two.
pub fn i8_to_i48(s: i8) -> (r: I48)
    ensures
        r@ == conv_spec(s as int, SampleFmt::I8, SampleFmt::I48),
{
    proof {
        lemma2_to64();
        lemma2_to64_rest();
        lemma_conv_biased(s as int, SampleFmt::I8, SampleFmt::I48);
        assert(conv_spec(s as int, SampleFmt::I8, SampleFmt::I48) == (s as int + 128) * 1_099_511_627_776 - 140_737_488_355_328);
    }
    let u: u64 = (s as i64 + 128) as u64;
    let m: u64 = u * 1_099_511_627_776u64;
    I48::new_unchecked((m as i64 - 140_737_488_355_328))
}

/// Converts a signed 8-bit sample to signed 64-bit, widening it by a power of two.
pub fn i8_to_i64(s: i8) -> (r: i64)
    ensures
        r as int == conv_spec(s as int, SampleFmt::I8, SampleFmt::I64),
{
    proof {
        lemma2_to64();
        lemma2_to64_rest();
        lemma_conv_biased(s as int, SampleFmt::I8, SampleFmt::I64);
        assert(conv_spec(s as int, SampleFmt::I8, SampleFmt::I64) == (s as int + 128) * 72_057_594_037_927_936 - 9_223_372_036_854_775_808);
    }
    let u: u64 = (s as i64 + 128) as u64;
    let m: u64 = u * 72_057_594_037_927_936u64;
    if m >= 9_223_372_036_854_775_808u64 {
        (m - 9_223_372_036_854_775_808u64) as i64
    } else {
        (m as i64) - 9_223_372_036_854_775_807 - 1
    }
}

/// Converts a signed 8-bit sample to unsigned 8-bit, re-biasing it around the midpoint.
pub fn i8_to_u8(s: i8) -> (r: u8)
    ensures
        r as int == conv_spec(s as int, SampleFmt::I8, SampleFmt::U8),
{
    proof {
        lemma2_to64();
        lemma2_to64_rest();
        lemma_conv_biased(s as int, SampleFmt::I8, SampleFmt::U8);
        assert(conv_spec(s as int, SampleFmt::I8, SampleFmt::U8) == (s as int + 128) * 1 + 0);
        assert(conv_spec(s as int, SampleFmt::I8, SampleFmt::U8) == s as int + 128);
    }
    let u: u64 = (s as i64 + 128) as u64;
    let m: u64 = u;
    m as u8
}

/// Converts a signed 8-bit sample to unsigned 16-bit, widening it by a power of two.
pub fn i8_to_u16(s: i8) -> (r: u16)
    ensures
        r as int == conv_spec(s as int, SampleFmt::I8, SampleFmt::U16),
{
    proof {
        lemma2_to64();
        lemma2_to64_rest();
        lemma_conv_biased(s as int, SampleFmt::I8, SampleFmt::U16);
        assert(conv_spec(s as int, SampleFmt::I8, SampleFmt::U16) == (s as int + 128) * 256 + 0);
    }
    let u: u64 = (s as i64 + 128) as u64;
    let m: u64 = u * 256u64;
    m as u16
}

/// Converts a signed 8-bit sample to unsigned 24-bit, widening it by a power of two.
pub fn i8_to_u24(s: i8) -> (r: U24)
    ensures
        r@ == conv_spec(s as int, SampleFmt::I8, SampleFmt::U24),
{
    proof {
        lemma2_to64();
        lemma2_to64_rest();
        lemma_conv_biased(s as int, SampleFmt::I8, SampleFmt::U24);
        assert(conv_spec(s as int, SampleFmt::I8, SampleFmt::U24) == (s as int + 128) * 65_536 + 0);
    }
    let u: u64 = (s as i64 + 128) as u64;
    let m: u64 = u * 65_536u64;
    U24::new_unchecked(m as i32)
}

/// Converts a signed 8-bit sample to unsigned 32-bit, widening it by a power of two.
pub fn i8_to_u32(s: i8) -> (r: u32)
    ensures
        r as int == conv_spec(s as int, SampleFmt::I8, SampleFmt::U32),
{
    proof {
        lemma2_to64();
        lemma2_to64_rest();
        lemma_conv_biased(s as int, SampleFmt::I8, SampleFmt::U32);
        assert(conv_spec(s as int, SampleFmt::I8, SampleFmt::U32) == (s as int + 128) * 16_777_216 + 0);
    }
    let u: u64 = (s as i64 + 128) as u64;
    let m: u64 = u * 16_777_216u64;
    m as u32
}

/// Converts a signed 8-bit sample to unsigned 48-bit, widening it by a power of two.
pub fn i8_to_u48(s: i8) -> (r: U48)
    ensures
        r@ == conv_spec(s as int, SampleFmt::I8, SampleFmt::U48),
{
    proof {
        lemma2_to64();
        lemma2_to64_rest();
        lemma_conv_biased(s as int, SampleFmt::I8, SampleFmt::U48);
        assert(conv_spec(s as int, SampleFmt::I8, SampleFmt::U48) == (s as int + 128) * 1_099_511_627_776 + 0);
    }
    let u: u64 = (s as i64 + 128) as u64;
    let m: u64 = u * 1_099_511_627_776u64;
    U48::new_unchecked(m as i64)
}

/// Converts a signed 8-bit sample to unsigned 64-bit, widening it by a power of two.
pub fn i8_to_u64(s: i8) -> (r: u64)
    ensures
        r as int == conv_spec(s as int, SampleFmt::I8, SampleFmt::U64),
{
    proof {
        lemma2_to64();
        lemma2_to64_rest();
        lemma_conv_biased(s as int, SampleFmt::I8, SampleFmt::U64);
        assert(conv_spec(s as int, SampleFmt::I8, SampleFmt::U64) == (s as int + 128) * 72_057_594_037_927_936 + 0);
    }
    let u: u64 = (s as i64 + 128) as u64;
    let m: u64 = u * 72_057_594_037_927_936u64;
    m
}

/// Converts a signed 16-bit sample to signed 8-bit, truncating the low-order bits.
pub fn i16_to_i8(s: i16) -> (r: i8)
    ensures
        r as int == conv_spec(s as int, SampleFmt::I16, SampleFmt::I8),
{
    proof {
        lemma2_to64();
        lemma2_to64_rest();
        lemma_conv_biased(s as int, SampleFmt::I16, SampleFmt::I8);
        assert(conv_spec(s as int, SampleFmt::I16, SampleFmt::I8) == (s as int + 32_768) / 256 - 128);
    }
    let u: u64 = (s as i64 + 32_768) as u64;
    let m: u64 = u / 256u64;
    (m as i64 - 128) as i8
}

/// Converts a signed 16-bit sample to signed 24-bit, widening it by a power of two.
pub fn i16_to_i24(s: i16) -> (r: I24)
    ensures
        r@ == conv_spec(s as int, SampleFmt::I16, SampleFmt::I24),
{
    proof {
        lemma2_to64();
        lemma2_to64_rest();
        lemma_conv_biased(s as int, SampleFmt::I16, SampleFmt::I24);
        assert(conv_spec(s as int, SampleFmt::I16, SampleFmt::I24) == (s as int + 32_768) * 256 - 8_388_608);
    }
    let u: u64 = (s as i64 + 32_768) as u64;
    let m: u64 = u * 256u64;
    I24::new_unchecked((m as i64 - 8_388_608) as i32)
}

/// Converts a signed 16-bit sample to signed 32-bit, widening it by a power of two.
pub fn i16_to_i32(s: i16) -> (r: i32)
    ensures
        r as int == conv_spec(s as int, SampleFmt::I16, SampleFmt::I32),
{
    proof {
        lemma2_to64();
        lemma2_to64_rest();
        lemma_conv_biased(s as int, SampleFmt::I16, SampleFmt::I32);
        assert(conv_spec(s as int, SampleFmt::I16, SampleFmt::I32) == (s as int + 32_768) * 65_536 - 2_147_483_648);
    }
    let u: u64 = (s as i64 + 32_768) as u64;
    let m: u64 = u * 65_536u64;
    (m as i64 - 2_147_483_648) as i32
}

/// Converts a signed 16-bit sample to signed 48-bit, widening it by a power of two.
pub fn i16_to_i48(s: i16) -> (r: I48)
    ensures
        r@ == conv_spec(s as int, SampleFmt::I16, SampleFmt::I48),
{
    proof {
        lemma2_to64();
        lemma2_to64_rest();
        lemma_conv_biased(s as int, SampleFmt::I16, SampleFmt::I48);
        assert(conv_spec(s as int, SampleFmt::I16, SampleFmt::I48) == (s as int + 32_768) * 4_294_967_296 - 140_737_488_355_328);
    }
    let u: u64 = (s as i64 + 32_768) as u64;
    let m: u64 = u * 4_294_967_296u64;
    I48::new_unchecked((m as i64 - 140_737_488_355_328))
}

/// Converts a signed 16-bit sample to signed 64-bit, widening it by a power of two.
pub fn i16_to_i64(s: i16) -> (r: i64)
    ensures
        r as int == conv_spec(s as int, SampleFmt::I16, SampleFmt::I64),
{
    proof {
        lemma2_to64();
        lemma2_to64_rest();
        lemma_conv_biased(s as int, SampleFmt::I16, SampleFmt::I64);
        assert(conv_spec(s as int, SampleFmt::I16, SampleFmt::I64) == (s as int + 32_768) * 281_474_976_710_656 - 9_223_372_036_854_775_808);
    }
    let u: u64 = (s as i64 + 32_768) as u64;
    let m: u64 = u * 281_474_976_710_656u64;
    if m >= 9_223_372_036_854_775_808u64 {
        (m - 9_223_372_036_854_775_808u64) as i64
    } else {
        (m as i64) - 9_223_372_036_854_775_807 - 1
    }
}

/// Converts a signed 16-bit sample to unsigned 8-bit, truncating the low-order bits.
pub fn i16_to_u8(s: i16) -> (r: u8)
    ensures
        r as int == conv_spec(s as int, SampleFmt::I16, SampleFmt::U8),
{
    proof {
        lemma2_to64();
        lemma2_to64_rest();
        lemma_conv_biased(s as int, SampleFmt::I16, SampleFmt::U8);
        assert(conv_spec(s as int, SampleFmt::I16, SampleFmt::U8) == (s as int + 32_768) / 256 + 0);
    }
    let u: u64 = (s as i64 + 32_768) as u64;
    let m: u64 = u / 256u64;
    m as u8
}

/// Converts a signed 16-bit sample to unsigned 16-bit, re-biasing it around the midpoint.
pub fn i16_to_u16(s: i16) -> (r: u16)
    ensures
        r as int == conv_spec(s as int, SampleFmt::I16, SampleFmt::U16),
{
    proof {
        lemma2_to64();
        lemma2_to64_rest();
        lemma_conv_biased(s as int, SampleFmt::I16, SampleFmt::U16);
        assert(conv_spec(s as int, SampleFmt::I16, SampleFmt::U16) == (s as int + 32_768) * 1 + 0);
        assert(conv_spec(s as int, SampleFmt::I16, SampleFmt::U16) == s as int + 32_768);
    }
    let u: u64 = (s as i64 + 32_768) as u64;
    let m: u64 = u;
    m as u16
}

/// Converts a signed 16-bit sample to unsigned 24-bit, widening it by a power of two.
pub fn i16_to_u24(s: i16) -> (r: U24)
    ensures
        r@ == conv_spec(s as int, SampleFmt::I16, SampleFmt::U24),
{
    proof {
        lemma2_to64();
        lemma2_to64_rest();
        lemma_conv_biased(s as int, SampleFmt::I16, SampleFmt::U24);
        assert(conv_spec(s as int, SampleFmt::I16, SampleFmt::U24) == (s as int + 32_768) * 256 + 0);
    }
    let u: u64 = (s as i64 + 32_768) as u64;
    let m: u64 = u * 256u64;
    U24::new_unchecked(m as i32)
}

/// Converts a signed 16-bit sample to unsigned 32-bit, widening it by a power of two.
pub fn i16_to_u32(s: i16) -> (r: u32)
    ensures
        r as int == conv_spec(s as int, SampleFmt::I16, SampleFmt::U32),
{
    proof {
        lemma2_to64();
        lemma2_to64_rest();
        lemma_conv_biased(s as int, SampleFmt::I16, SampleFmt::U32);
        assert(conv_spec(s as int, SampleFmt::I16, SampleFmt::U32) == (s as int + 32_768) * 65_536 + 0);
    }
    let u: u64 = (s as i64 + 32_768) as u64;
    let m: u64 = u * 65_536u64;
    m as u32
}

/// Converts a signed 16-bit sample to unsigned 48-bit, widening it by a power of two.
pub fn i16_to_u48(s: i16) -> (r: U48)
    ensures
        r@ == conv_spec(s as int, SampleFmt::I16, SampleFmt::U48),
{
    proof {
        lemma2_to64();
        lemma2_to64_rest();
        lemma_conv_biased(s as int, SampleFmt::I16, SampleFmt::U48);
        assert(conv_spec(s as int, SampleFmt::I16, SampleFmt::U48) == (s as int + 32_768) * 4_294_967_296 + 0);
    }
    let u: u64 = (s as i64 + 32_768) as u64;
    let m: u64 = u * 4_294_967_296u64;
    U48::new_unchecked(m as i64)
}

/// Converts a signed 16-bit sample to unsigned 64-bit, widening it by a power of two.
pub fn i16_to_u64(s: i16) -> (r: u64)
    ensures
        r as int == conv_spec(s as int, SampleFmt::I16, SampleFmt::U64),
{
    proof {
        lemma2_to64();
        lemma2_to64_rest();
        lemma_conv_biased(s as int, SampleFmt::I16, SampleFmt::U64);
        assert(conv_spec(s as int, SampleFmt::I16, SampleFmt::U64) == (s as int + 32_768) * 281_474_976_710_656 + 0);
    }
    let u: u64 = (s as i64 + 32_768) as u64;
    let m: u64 = u * 281_474_976_710_656u64;
    m
}

/// Converts a signed 24-bit sample to signed 8-bit, truncating the low-order bits.
pub fn i24_to_i8(s: I24) -> (r: i8)
    ensures
        r as int == conv_spec(s@, SampleFmt::I24, SampleFmt::I8),
{
    proof {
        lemma2_to64();
        lemma2_to64_rest();
        lemma_conv_biased(s@, SampleFmt::I24, SampleFmt::I8);
        assert(conv_spec(s@, SampleFmt::I24, SampleFmt::I8) == (s@ + 8_388_608) / 65_536 - 128);
    }
    let u: u64 = (s.inner() as i64 + 8_388_608) as u64;
    let m: u64 = u / 65_536u64;
    (m as i64 - 128) as i8
}

/// Converts a signed 24-bit sample to signed 16-bit, truncating the low-order bits.
pub fn i24_to_i16(s: I24) -> (r: i16)
    ensures
        r as int == conv_spec(s@, SampleFmt::I24, SampleFmt::I16),
{
    proof {
        lemma2_to64();
        lemma2_to64_rest();
        lemma_conv_biased(s@, SampleFmt::I24, SampleFmt::I16);
        assert(conv_spec(s@, SampleFmt::I24, SampleFmt::I16) == (s@ + 8_388_608) / 256 - 32_768);
    }
    let u: u64 = (s.inner() as i64 + 8_388_608) as u64;
    let m: u64 = u / 256u64;
    (m as i64 - 32_768) as i16
}

/// Converts a signed 24-bit sample to signed 32-bit, widening it by a power of two.
pub fn i24_to_i32(s: I24) -> (r: i32)
    ensures
        r as int == conv_spec(s@, SampleFmt::I24, SampleFmt::I32),
{
    proof {
        lemma2_to64();
        lemma2_to64_rest();
        lemma_conv_biased(s@, SampleFmt::I24, SampleFmt::I32);
        assert(conv_spec(s@, SampleFmt::I24, SampleFmt::I32) == (s@ + 8_388_608) * 256 - 2_147_483_648);
    }
    let u: u64 = (s.inner() as i64 + 8_388_608) as u64;
    let m: u64 = u * 256u64;
    (m as i64 - 2_147_483_648) as i32
}

/// Converts a signed 24-bit sample to signed 48-bit, widening it by a power of two.
pub fn i24_to_i48(s: I24) -> (r: I48)
    ensures
        r@ == conv_spec(s@, SampleFmt::I24, SampleFmt::I48),
{
    proof {
        lemma2_to64();
        lemma2_to64_rest();
        lemma_conv_biased(s@, SampleFmt::I24, SampleFmt::I48);
        assert(conv_spec(s@, SampleFmt::I24, SampleFmt::I48) == (s@ + 8_388_608) * 16_777_216 - 140_737_488_355_328);
    }
    let u: u64 = (s.inner() as i64 + 8_388_608) as u64;
    let m: u64 = u * 16_777_216u64;
    I48::new_unchecked((m as i64 - 140_737_488_355_328))
}

/// Converts a signed 24-bit sample to signed 64-bit, widening it by a power of two.
pub fn i24_to_i64(s: I24) -> (r: i64)
    ensures
        r as int == conv_spec(s@, SampleFmt::I24, SampleFmt::I64),
{
    proof {
        lemma2_to64();
        lemma2_to64_rest();
        lemma_conv_biased(s@, SampleFmt::I24, SampleFmt::I64);
        assert(conv_spec(s@, SampleFmt::I24, SampleFmt::I64) == (s@ + 8_388_608) * 1_099_511_627_776 - 9_223_372_036_854_775_808);
    }
    let u: u64 = (s.inner() as i64 + 8_388_608) as u64;
    let m: u64 = u * 1_099_511_627_776u64;
    if m >= 9_223_372_036_854_775_808u64 {
        (m - 9_223_372_036_854_775_808u64) as i64
    } else {
        (m as i64) - 9_223_372_036_854_775_807 - 1
    }
}

/// Converts a signed 24-bit sample to unsigned 8-bit, truncating the low-order bits.
pub fn i24_to_u8(s: I24) -> (r: u8)
    ensures
        r as int == conv_spec(s@, SampleFmt::I24, SampleFmt::U8),
{
    proof {
        lemma2_to64();
        lemma2_to64_rest();
        lemma_conv_biased(s@, SampleFmt::I24, SampleFmt::U8);
        assert(conv_spec(s@, SampleFmt::I24, SampleFmt::U8) == (s@ + 8_388_608) / 65_536 + 0);
    }
    let u: u64 = (s.inner() as i64 + 8_388_608) as u64;
    let m: u64 = u / 65_536u64;
    m as u8
}

/// Converts a signed 24-bit sample to unsigned 16-bit, truncating the low-order bits.
pub fn i24_to_u16(s: I24) -> (r: u16)
    ensures
        r as int == conv_spec(s@, SampleFmt::I24, SampleFmt::U16),
{
    proof {
        lemma2_to64();
        lemma2_to64_rest();
        lemma_conv_biased(s@, SampleFmt::I24, SampleFmt::U16);
        assert(conv_spec(s@, SampleFmt::I24, SampleFmt::U16) == (s@ + 8_388_608) / 256 + 0);
    }
    let u: u64 = (s.inner() as i64 + 8_388_608) as u64;
    let m: u64 = u / 256u64;
    m as u16
}

/// Converts a signed 24-bit sample to unsigned 24-bit, re-biasing it around the midpoint.
pub fn i24_to_u24(s: I24) -> (r: U24)
    ensures
        r@ == conv_spec(s@, SampleFmt::I24, SampleFmt::U24),
{
    proof {
        lemma2_to64();
        lemma2_to64_rest();
        lemma_conv_biased(s@, SampleFmt::I24, SampleFmt::U24);
        assert(conv_spec(s@, SampleFmt::I24, SampleFmt::U24) == (s@ + 8_388_608) * 1 + 0);
        assert(conv_spec(s@, SampleFmt::I24, SampleFmt::U24) == s@ + 8_388_608);
    }
    let u: u64 = (s.inner() as i64 + 8_388_608) as u64;
    let m: u64 = u;
    U24::new_unchecked(m as i32)
}

/// Converts a signed 24-bit sample to unsigned 32-bit, widening it by a power of two.
pub fn i24_to_u32(s: I24) -> (r: u32)
    ensures
        r as int == conv_spec(s@, SampleFmt::I24, SampleFmt::U32),
{
    proof {
        lemma2_to64();
        lemma2_to64_rest();
        lemma_conv_biased(s@, SampleFmt::I24, SampleFmt::U32);
        assert(conv_spec(s@, SampleFmt::I24, SampleFmt::U32) == (s@ + 8_388_608) * 256 + 0);
    }
    let u: u64 = (s.inner() as i64 + 8_388_608) as u64;
    let m: u64 = u * 256u64;
    m as u32
}

/// Converts a signed 24-bit sample to unsigned 48-bit, widening it by a power of two.
pub fn i24_to_u48(s: I24) -> (r: U48)
    ensures
        r@ == conv_spec(s@, SampleFmt::I24, SampleFmt::U48),
{
    proof {
        lemma2_to64();
        lemma2_to64_rest();
        lemma_conv_biased(s@, SampleFmt::I24, SampleFmt::U48);
        assert(conv_spec(s@, SampleFmt::I24, SampleFmt::U48) == (s@ + 8_388_608) * 16_777_216 + 0);
    }
    let u: u64 = (s.inner() as i64 + 8_388_608) as u64;
    let m: u64 = u * 16_777_216u64;
    U48::new_unchecked(m as i64)
}

/// Converts a signed 24-bit sample to unsigned 64-bit, widening it by a power of two.
pub fn i24_to_u64(s: I24) -> (r: u64)
    ensures
        r as int == conv_spec(s@, SampleFmt::I24, SampleFmt::U64),
{
    proof {
        lemma2_to64();
        lemma2_to64_rest();
        lemma_conv_biased(s@, SampleFmt::I24, SampleFmt::U64);
        assert(conv_spec(s@, SampleFmt::I24, SampleFmt::U64) == (s@ + 8_388_608) * 1_099_511_627_776 + 0);
    }
    let u: u64 = (s.inner() as i64 + 8_388_608) as u64;
    let m: u64 = u * 1_099_511_627_776u64;
    m
}

/// Converts a signed 32-bit sample to signed 8-bit, truncating the low-order bits.
pub fn i32_to_i8(s: i32) -> (r: i8)
    ensures
        r as int == conv_spec(s as int, SampleFmt::I32, SampleFmt::I8),
{
    proof {
        lemma2_to64();
        lemma2_to64_rest();
        lemma_conv_biased(s as int, SampleFmt::I32, SampleFmt::I8);
        assert(conv_spec(s as int, SampleFmt::I32, SampleFmt::I8) == (s as int + 2_147_483_648) / 16_777_216 - 128);
    }
    let u: u64 = (s as i64 + 2_147_483_648) as u64;
    let m: u64 = u / 16_777_216u64;
    (m as i64 - 128) as i8
}

/// Converts a signed 32-bit sample to signed 16-bit, truncating the low-order bits.
pub fn i32_to_i16(s: i32) -> (r: i16)
    ensures
        r as int == conv_spec(s as int, SampleFmt::I32, SampleFmt::I16),
{
    proof {
        lemma2_to64();
        lemma2_to64_rest();
        lemma_conv_biased(s as int, SampleFmt::I32, SampleFmt::I16);
        assert(conv_spec(s as int, SampleFmt::I32, SampleFmt::I16) == (s as int + 2_147_483_648) / 65_536 - 32_768);
    }
    let u: u64 = (s as i64 + 2_147_483_648) as u64;
    let m: u64 = u / 65_536u64;
    (m as i64 - 32_768) as i16
}

/// Converts a signed 32-bit sample to signed 24-bit, truncating the low-order bits.
pub fn i32_to_i24(s: i32) -> (r: I24)
    ensures
        r@ == conv_spec(s as int, SampleFmt::I32, SampleFmt::I24),
{
    proof {
        lemma2_to64();
        lemma2_to64_rest();
        lemma_conv_biased(s as int, SampleFmt::I32, SampleFmt::I24);
        assert(conv_spec(s as int, SampleFmt::I32, SampleFmt::I24) == (s as int + 2_147_483_648) / 256 - 8_388_608);
    }
    let u: u64 = (s as i64 + 2_147_483_648) as u64;
    let m: u64 = u / 256u64;
    I24::new_unchecked((m as i64 - 8_388_608) as i32)
}

/// Converts a signed 32-bit sample to signed 48-bit, widening it by a power of two.
pub fn i32_to_i48(s: i32) -> (r: I48)
    ensures
        r@ == conv_spec(s as int, SampleFmt::I32, SampleFmt::I48),
{
    proof {
        lemma2_to64();
        lemma2_to64_rest();
        lemma_conv_biased(s as int, SampleFmt::I32, SampleFmt::I48);
        assert(conv_spec(s as int, SampleFmt::I32, SampleFmt::I48) == (s as int + 2_147_483_648) * 65_536 - 140_737_488_355_328);
    }
    let u: u64 = (s as i64 + 2_147_483_648) as u64;
    let m: u64 = u * 65_536u64;
    I48::new_unchecked((m as i64 - 140_737_488_355_328))
}

/// Converts a signed 32-bit sample to signed 64-bit, widening it by a power of two.
pub fn i32_to_i64(s: i32) -> (r: i64)
    ensures
        r as int == conv_spec(s as int, SampleFmt::I32, SampleFmt::I64),
{
    proof {
        lemma2_to64();
        lemma2_to64_rest();
        lemma_conv_biased(s as int, SampleFmt::I32, SampleFmt::I64);
        assert(conv_spec(s as int, SampleFmt::I32, SampleFmt::I64) == (s as int + 2_147_483_648) * 4_294_967_296 - 9_223_372_036_854_775_808);
    }
    let u: u64 = (s as i64 + 2_147_483_648) as u64;
    let m: u64 = u * 4_294_967_296u64;
    if m >= 9_223_372_036_854_775_808u64 {
        (m - 9_223_372_036_854_775_808u64) as i64
    } else {
        (m as i64) - 9_223_372_036_854_775_807 - 1
    }
}

/// Converts a signed 32-bit sample to unsigned 8-bit, truncating the low-order bits.
pub fn i32_to_u8(s: i32) -> (r: u8)
    ensures
        r as int == conv_spec(s as int, SampleFmt::I32, SampleFmt::U8),
{
    proof {
        lemma2_to64();
        lemma2_to64_rest();
        lemma_conv_biased(s as int, SampleFmt::I32, SampleFmt::U8);
        assert(conv_spec(s as int, SampleFmt::I32, SampleFmt::U8) == (s as int + 2_147_483_648) / 16_777_216 + 0);
    }
    let u: u64 = (s as i64 + 2_147_483_648) as u64;
    let m: u64 = u / 16_777_216u64;
    m as u8
}

/// Converts a signed 32-bit sample to unsigned 16-bit, truncating the low-order bits.
pub fn i32_to_u16(s: i32) -> (r: u16)
    ensures
        r as int == conv_spec(s as int, SampleFmt::I32, SampleFmt::U16),
{
    proof {
        lemma2_to64();
        lemma2_to64_rest();
        lemma_conv_biased(s as int, SampleFmt::I32, SampleFmt::U16);
        assert(conv_spec(s as int, SampleFmt::I32, SampleFmt::U16) == (s as int + 2_147_483_648) / 65_536 + 0);
    }
    let u: u64 = (s as i64 + 2_147_483_648) as u64;
    let m: u64 = u / 65_536u64;
    m as u16
}

/// Converts a signed 32-bit sample to unsigned 24-bit, truncating the low-order bits.
pub fn i32_to_u24(s: i32) -> (r: U24)
    ensures
        r@ == conv_spec(s as int, SampleFmt::I32, SampleFmt::U24),
{
    proof {
        lemma2_to64();
        lemma2_to64_rest();
        lemma_conv_biased(s as int, SampleFmt::I32, SampleFmt::U24);
        assert(conv_spec(s as int, SampleFmt::I32, SampleFmt::U24) == (s as int + 2_147_483_648) / 256 + 0);
    }
    let u: u64 = (s as i64 + 2_147_483_648) as u64;
    let m: u64 = u / 256u64;
    U24::new_unchecked(m as i32)
}

/// Converts a signed 32-bit sample to unsigned 32-bit, re-biasing it around the midpoint.
pub fn i32_to_u32(s: i32) -> (r: u32)
    ensures
        r as int == conv_spec(s as int, SampleFmt::I32, SampleFmt::U32),
{
    proof {
        lemma2_to64();
        lemma2_to64_rest();
        lemma_conv_biased(s as int, SampleFmt::I32, SampleFmt::U32);
        assert(conv_spec(s as int, SampleFmt::I32, SampleFmt::U32) == (s as int + 2_147_483_648) * 1 + 0);
        assert(conv_spec(s as int, SampleFmt::I32, SampleFmt::U32) == s as int + 2_147_483_648);
    }
    let u: u64 = (s as i64 + 2_147_483_648) as u64;
    let m: u64 = u;
    m as u32
}

/// Converts a signed 32-bit sample to unsigned 48-bit, widening it by a power of two.
pub fn i32_to_u48(s: i32) -> (r: U48)
    ensures
        r@ == conv_spec(s as int, SampleFmt::I32, SampleFmt::U48),
{
    proof {
        lemma2_to64();
        lemma2_to64_rest();
        lemma_conv_biased(s as int, SampleFmt::I32, SampleFmt::U48);
        assert(conv_spec(s as int, SampleFmt::I32, SampleFmt::U48) == (s as int + 2_147_483_648) * 65_536 + 0);
    }
    let u: u64 = (s as i64 + 2_147_483_648) as u64;
    let m: u64 = u * 65_536u64;
    U48::new_unchecked(m as i64)
}

/// Converts a signed 32-bit sample to unsigned 64-bit, widening it by a power of two.
pub fn i32_to_u64(s: i32) -> (r: u64)
    ensures
        r as int == conv_spec(s as int, SampleFmt::I32, SampleFmt::U64),
{
    proof {
        lemma2_to64();
        lemma2_to64_rest();
        lemma_conv_biased(s as int, SampleFmt::I32, SampleFmt::U64);
        assert(conv_spec(s as int, SampleFmt::I32, SampleFmt::U64) == (s as int + 2_147_483_648) * 4_294_967_296 + 0);
    }
    let u: u64 = (s as i64 + 2_147_483_648) as u64;
    let m: u64 = u * 4_294_967_296u64;
    m
}

/// Converts a signed 48-bit sample to signed 8-bit, truncating the low-order bits.
pub fn i48_to_i8(s: I48) -> (r: i8)
    ensures
        r as int == conv_spec(s@, SampleFmt::I48, SampleFmt::I8),
{
    proof {
        lemma2_to64();
        lemma2_to64_rest();
        lemma_conv_biased(s@, SampleFmt::I48, SampleFmt::I8);
        assert(conv_spec(s@, SampleFmt::I48, SampleFmt::I8) == (s@ + 140_737_488_355_328) / 1_099_511_627_776 - 128);
    }
    let u: u64 = (s.inner() + 140_737_488_355_328) as u64;
    let m: u64 = u / 1_099_511_627_776u64;
    (m as i64 - 128) as i8
}

/// Converts a signed 48-bit sample to signed 16-bit, truncating the low-order bits.
pub fn i48_to_i16(s: I48) -> (r: i16)
    ensures
        r as int == conv_spec(s@, SampleFmt::I48, SampleFmt::I16),
{
    proof {
        lemma2_to64();
        lemma2_to64_rest();
        lemma_conv_biased(s@, SampleFmt::I48, SampleFmt::I16);
        assert(conv_spec(s@, SampleFmt::I48, SampleFmt::I16) == (s@ + 140_737_488_355_328) / 4_294_967_296 - 32_768);
    }
    let u: u64 = (s.inner() + 140_737_488_355_328) as u64;
    let m: u64 = u / 4_294_967_296u64;
    (m as i64 - 32_768) as i16
}

/// Converts a signed 48-bit sample to signed 24-bit, truncating the low-order bits.
pub fn i48_to_i24(s: I48) -> (r: I24)
    ensures
        r@ == conv_spec(s@, SampleFmt::I48, SampleFmt::I24),
{
    proof {
        lemma2_to64();
        lemma2_to64_rest();
        lemma_conv_biased(s@, SampleFmt::I48, SampleFmt::I24);
        assert(conv_spec(s@, SampleFmt::I48, SampleFmt::I24) == (s@ + 140_737_488_355_328) / 16_777_216 - 8_388_608);
    }
    let u: u64 = (s.inner() + 140_737_488_355_328) as u64;
    let m: u64 = u / 16_777_216u64;
    I24::new_unchecked((m as i64 - 8_388_608) as i32)
}

/// Converts a signed 48-bit sample to signed 32-bit, truncating the low-order bits.
pub fn i48_to_i32(s: I48) -> (r: i32)
    ensures
        r as int == conv_spec(s@, SampleFmt::I48, SampleFmt::I32),
{
    proof {
        lemma2_to64();
        lemma2_to64_rest();
        lemma_conv_biased(s@, SampleFmt::I48, SampleFmt::I32);
        assert(conv_spec(s@, SampleFmt::I48, SampleFmt::I32) == (s@ + 140_737_488_355_328) / 65_536 - 2_147_483_648);
    }
    let u: u64 = (s.inner() + 140_737_488_355_328) as u64;
    let m: u64 = u / 65_536u64;
    (m as i64 - 2_147_483_648) as i32
}

/// Converts a signed 48-bit sample to signed 64-bit, widening it by a power of two.
pub fn i48_to_i64(s: I48) -> (r: i64)
    ensures
        r as int == conv_spec(s@, SampleFmt::I48, SampleFmt::I64),
{
    proof {
        lemma2_to64();
        lemma2_to64_rest();
        lemma_conv_biased(s@, SampleFmt::I48, SampleFmt::I64);
        assert(conv_spec(s@, SampleFmt::I48, SampleFmt::I64) == (s@ + 140_737_488_355_328) * 65_536 - 9_223_372_036_854_775_808);
    }
    let u: u64 = (s.inner() + 140_737_488_355_328) as u64;
    let m: u64 = u * 65_536u64;
    if m >= 9_223_372_036_854_775_808u64 {
        (m - 9_223_372_036_854_775_808u64) as i64
    } else {
        (m as i64) - 9_223_372_036_854_775_807 - 1
    }
}

/// Converts a signed 48-bit sample to unsigned 8-bit, truncating the low-order bits.
pub fn i48_to_u8(s: I48) -> (r: u8)
    ensures
        r as int == conv_spec(s@, SampleFmt::I48, SampleFmt::U8),
{
    proof {
        lemma2_to64();
        lemma2_to64_rest();
        lemma_conv_biased(s@, SampleFmt::I48, SampleFmt::U8);
        assert(conv_spec(s@, SampleFmt::I48, SampleFmt::U8) == (s@ + 140_737_488_355_328) / 1_099_511_627_776 + 0);
    }
    let u: u64 = (s.inner() + 140_737_488_355_328) as u64;
    let m: u64 = u / 1_099_511_627_776u64;
    m as u8
}

/// Converts a signed 48-bit sample to unsigned 16-bit, truncating the low-order bits.
pub fn i48_to_u16(s: I48) -> (r: u16)
    ensures
        r as int == conv_spec(s@, SampleFmt::I48, SampleFmt::U16),
{
    proof {
        lemma2_to64();
        lemma2_to64_rest();
        lemma_conv_biased(s@, SampleFmt::I48, SampleFmt::U16);
        assert(conv_spec(s@, SampleFmt::I48, SampleFmt::U16) == (s@ + 140_737_488_355_328) / 4_294_967_296 + 0);
    }
    let u: u64 = (s.inner() + 140_737_488_355_328) as u64;
    let m: u64 = u / 4_294_967_296u64;
    m as u16
}

/// Converts a signed 48-bit sample to unsigned 24-bit, truncating the low-order bits.
pub fn i48_to_u24(s: I48) -> (r: U24)
    ensures
        r@ == conv_spec(s@, SampleFmt::I48, SampleFmt::U24),
{
    proof {
        lemma2_to64();
        lemma2_to64_rest();
        lemma_conv_biased(s@, SampleFmt::I48, SampleFmt::U24);
        assert(conv_spec(s@, SampleFmt::I48, SampleFmt::U24) == (s@ + 140_737_488_355_328) / 16_777_216 + 0);
    }
    let u: u64 = (s.inner() + 140_737_488_355_328) as u64;
    let m: u64 = u / 16_777_216u64;
    U24::new_unchecked(m as i32)
}

/// Converts a signed 48-bit sample to unsigned 32-bit, truncating the low-order bits.
pub fn i48_to_u32(s: I48) -> (r: u32)
    ensures
        r as int == conv_spec(s@, SampleFmt::I48, SampleFmt::U32),
{
    proof {
        lemma2_to64();
        lemma2_to64_rest();
        lemma_conv_biased(s@, SampleFmt::I48, SampleFmt::U32);
        assert(conv_spec(s@, SampleFmt::I48, SampleFmt::U32) == (s@ + 140_737_488_355_328) / 65_536 + 0);
    }
    let u: u64 = (s.inner() + 140_737_488_355_328) as u64;
    let m: u64 = u / 65_536u64;
    m as u32
}

/// Converts a signed 48-bit sample to unsigned 48-bit, re-biasing it around the midpoint.
pub fn i48_to_u48(s: I48) -> (r: U48)
    ensures
        r@ == conv_spec(s@, SampleFmt::I48, SampleFmt::U48),
{
    proof {
        lemma2_to64();
        lemma2_to64_rest();
        lemma_conv_biased(s@, SampleFmt::I48, SampleFmt::U48);
        assert(conv_spec(s@, SampleFmt::I48, SampleFmt::U48) == (s@ + 140_737_488_355_328) * 1 + 0);
        assert(conv_spec(s@, SampleFmt::I48, SampleFmt::U48) == s@ + 140_737_488_355_328);
    }
    let u: u64 = (s.inner() + 140_737_488_355_328) as u64;
    let m: u64 = u;
    U48::new_unchecked(m as i64)
}

/// Converts a signed 48-bit sample to unsigned 64-bit, widening it by a power of two.
pub fn i48_to_u64(s: I48) -> (r: u64)
    ensures
        r as int == conv_spec(s@, SampleFmt::I48, SampleFmt::U64),
{
    proof {
        lemma2_to64();
        lemma2_to64_rest();
        lemma_conv_biased(s@, SampleFmt::I48, SampleFmt::U64);
        assert(conv_spec(s@, SampleFmt::I48, SampleFmt::U64) == (s@ + 140_737_488_355_328) * 65_536 + 0);
    }
    let u: u64 = (s.inner() + 140_737_488_355_328) as u64;
    let m: u64 = u * 65_536u64;
    m
}

/// Converts a signed 64-bit sample to signed 8-bit, truncating the low-order bits.
pub fn i64_to_i8(s: i64) -> (r: i8)
    ensures
        r as int == conv_spec(s as int, SampleFmt::I64, SampleFmt::I8),
{
    proof {
        lemma2_to64();
        lemma2_to64_rest();
        lemma_conv_biased(s as int, SampleFmt::I64, SampleFmt::I8);
        assert(conv_spec(s as int, SampleFmt::I64, SampleFmt::I8) == (s as int + 9_223_372_036_854_775_808) / 72_057_594_037_927_936 - 128);
    }
    let u: u64 = if s < 0 {
        (s + 9_223_372_036_854_775_807 + 1) as u64
    } else {
        (s as u64) + 9_223_372_036_854_775_808u64
    };
    let m: u64 = u / 72_057_594_037_927_936u64;
    (m as i64 - 128) as i8
}

/// Converts a signed 64-bit sample to signed 16-bit, truncating the low-order bits.
pub fn i64_to_i16(s: i64) -> (r: i16)
    ensures
        r as int == conv_spec(s as int, SampleFmt::I64, SampleFmt::I16),
{
    proof {
        lemma2_to64();
        lemma2_to64_rest();
        lemma_conv_biased(s as int, SampleFmt::I64, SampleFmt::I16);
        assert(conv_spec(s as int, SampleFmt::I64, SampleFmt::I16) == (s as int + 9_223_372_036_854_775_808) / 281_474_976_710_656 - 32_768);
    }
    let u: u64 = if s < 0 {
        (s + 9_223_372_036_854_775_807 + 1) as u64
    } else {
        (s as u64) + 9_223_372_036_854_775_808u64
    };
    let m: u64 = u / 281_474_976_710_656u64;
    (m as i64 - 32_768) as i16
}

/// Converts a signed 64-bit sample to signed 24-bit, truncating the low-order bits.
pub fn i64_to_i24(s: i64) -> (r: I24)
    ensures
        r@ == conv_spec(s as int, SampleFmt::I64, SampleFmt::I24),
{
    proof {
        lemma2_to64();
        lemma2_to64_rest();
        lemma_conv_biased(s as int, SampleFmt::I64, SampleFmt::I24);
        assert(conv_spec(s as int, SampleFmt::I64, SampleFmt::I24) == (s as int + 9_223_372_036_854_775_808) / 1_099_511_627_776 - 8_388_608);
    }
    let u: u64 = if s < 0 {
        (s + 9_223_372_036_854_775_807 + 1) as u64
    } else {
        (s as u64) + 9_223_372_036_854_775_808u64
    };
    let m: u64 = u / 1_099_511_627_776u64;
    I24::new_unchecked((m as i64 - 8_388_608) as i32)
}

/// Converts a signed 64-bit sample to signed 32-bit, truncating the low-order bits.
pub fn i64_to_i32(s: i64) -> (r: i32)
    ensures
        r as int == conv_spec(s as int, SampleFmt::I64, SampleFmt::I32),
{
    proof {
        lemma2_to64();
        lemma2_to64_rest();
        lemma_conv_biased(s as int, SampleFmt::I64, SampleFmt::I32);
        assert(conv_spec(s as int, SampleFmt::I64, SampleFmt::I32) == (s as int + 9_223_372_036_854_775_808) / 4_294_967_296 - 2_147_483_648);
    }
    let u: u64 = if s < 0 {
        (s + 9_223_372_036_854_775_807 + 1) as u64
    } else {
        (s as u64) + 9_223_372_036_854_775_808u64
    };
    let m: u64 = u / 4_294_967_296u64;
    (m as i64 - 2_147_483_648) as i32
}

/// Converts a signed 64-bit sample to signed 48-bit, truncating the low-order bits.
pub fn i64_to_i48(s: i64) -> (r: I48)
    ensures
        r@ == conv_spec(s as int, SampleFmt::I64, SampleFmt::I48),
{
    proof {
        lemma2_to64();
        lemma2_to64_rest();
        lemma_conv_biased(s as int, SampleFmt::I64, SampleFmt::I48);
        assert(conv_spec(s as int, SampleFmt::I64, SampleFmt::I48) == (s as int + 9_223_372_036_854_775_808) / 65_536 - 140_737_488_355_328);
    }
    let u: u64 = if s < 0 {
        (s + 9_223_372_036_854_775_807 + 1) as u64
    } else {
        (s as u64) + 9_223_372_036_854_775_808u64
    };
    let m: u64 = u / 65_536u64;
    I48::new_unchecked((m as i64 - 140_737_488_355_328))
}

/// Converts a signed 64-bit sample to unsigned 8-bit, truncating the low-order bits.
pub fn i64_to_u8(s: i64) -> (r: u8)
    ensures
        r as int == conv_spec(s as int, SampleFmt::I64, SampleFmt::U8),
{
    proof {
        lemma2_to64();
        lemma2_to64_rest();
        lemma_conv_biased(s as int, SampleFmt::I64, SampleFmt::U8);
        assert(conv_spec(s as int, SampleFmt::I64, SampleFmt::U8) == (s as int + 9_223_372_036_854_775_808) / 72_057_594_037_927_936 + 0);
    }
    let u: u64 = if s < 0 {
        (s + 9_223_372_036_854_775_807 + 1) as u64
    } else {
        (s as u64) + 9_223_372_036_854_775_808u64
    };
    let m: u64 = u / 72_057_594_037_927_936u64;
    m as u8
}

/// Converts a signed 64-bit sample to unsigned 16-bit, truncating the low-order bits.
pub fn i64_to_u16(s: i64) -> (r: u16)
    ensures
        r as int == conv_spec(s as int, SampleFmt::I64, SampleFmt::U16),
{
    proof {
        lemma2_to64();
        lemma2_to64_rest();
        lemma_conv_biased(s as int, SampleFmt::I64, SampleFmt::U16);
        assert(conv_spec(s as int, SampleFmt::I64, SampleFmt::U16) == (s as int + 9_223_372_036_854_775_808) / 281_474_976_710_656 + 0);
    }
    let u: u64 = if s < 0 {
        (s + 9_223_372_036_854_775_807 + 1) as u64
    } else {
        (s as u64) + 9_223_372_036_854_775_808u64
    };
    let m: u64 = u / 281_474_976_710_656u64;
    m as u16
}

/// Converts a signed 64-bit sample to unsigned 24-bit, truncating the low-order bits.
pub fn i64_to_u24(s: i64) -> (r: U24)
    ensures
        r@ == conv_spec(s as int, SampleFmt::I64, SampleFmt::U24),
{
    proof {
        lemma2_to64();
        lemma2_to64_rest();
        lemma_conv_biased(s as int, SampleFmt::I64, SampleFmt::U24);
        assert(conv_spec(s as int, SampleFmt::I64, SampleFmt::U24) == (s as int + 9_223_372_036_854_775_808) / 1_099_511_627_776 + 0);
    }
    let u: u64 = if s < 0 {
        (s + 9_223_372_036_854_775_807 + 1) as u64
    } else {
        (s as u64) + 9_223_372_036_854_775_808u64
    };
    let m: u64 = u / 1_099_511_627_776u64;
    U24::new_unchecked(m as i32)
}

/// Converts a signed 64-bit sample to unsigned 32-bit, truncating the low-order bits.
pub fn i64_to_u32(s: i64) -> (r: u32)
    ensures
        r as int == conv_spec(s as int, SampleFmt::I64, SampleFmt::U32),
{
    proof {
        lemma2_to64();
        lemma2_to64_rest();
        lemma_conv_biased(s as int, SampleFmt::I64, SampleFmt::U32);
        assert(conv_spec(s as int, SampleFmt::I64, SampleFmt::U32) == (s as int + 9_223_372_036_854_775_808) / 4_294_967_296 + 0);
    }
    let u: u64 = if s < 0 {
        (s + 9_223_372_036_854_775_807 + 1) as u64
    } else {
        (s as u64) + 9_223_372_036_854_775_808u64
    };
    let m: u64 = u / 4_294_967_296u64;
    m as u32
}

/// Converts a signed 64-bit sample to unsigned 48-bit, truncating the low-order bits.
pub fn i64_to_u48(s: i64) -> (r: U48)
    ensures
        r@ == conv_spec(s as int, SampleFmt::I64, SampleFmt::U48),
{
    proof {
        lemma2_to64();
        lemma2_to64_rest();
        lemma_conv_biased(s as int, SampleFmt::I64, SampleFmt::U48);
        assert(conv_spec(s as int, SampleFmt::I64, SampleFmt::U48) == (s as int + 9_223_372_036_854_775_808) / 65_536 + 0);
    }
    let u: u64 = if s < 0 {
        (s + 9_223_372_036_854_775_807 + 1) as u64
    } else {
        (s as u64) + 9_223_372_036_854_775_808u64
    };
    let m: u64 = u / 65_536u64;
    U48::new_unchecked(m as i64)
}

/// Converts a signed 64-bit sample to unsigned 64-bit, re-biasing it around the midpoint.
pub fn i64_to_u64(s: i64) -> (r: u64)
    ensures
        r as int == conv_spec(s as int, SampleFmt::I64, SampleFmt::U64),
{
    proof {
        lemma2_to64();
        lemma2_to64_rest();
        lemma_conv_biased(s as int, SampleFmt::I64, SampleFmt::U64);
        assert(conv_spec(s as int, SampleFmt::I64, SampleFmt::U64) == (s as int + 9_223_372_036_854_775_808) * 1 + 0);
        assert(conv_spec(s as int, SampleFmt::I64, SampleFmt::U64) == s as int + 9_223_372_036_854_775_808);
    }
    let u: u64 = if s < 0 {
        (s + 9_223_372_036_854_775_807 + 1) as u64
    } else {
        (s as u64) + 9_223_372_036_854_775_808u64
    };
    let m: u64 = u;
    m
}

/// Converts an unsigned 8-bit sample to signed 8-bit, re-biasing it around the midpoint.
pub fn u8_to_i8(s: u8) -> (r: i8)
    ensures
        r as int == conv_spec(s as int, SampleFmt::U8, SampleFmt::I8),
{
    proof {
        lemma2_to64();
        lemma2_to64_rest();
        lemma_conv_biased(s as int, SampleFmt::U8, SampleFmt::I8);
        assert(conv_spec(s as int, SampleFmt::U8, SampleFmt::I8) == (s as int - 0) * 1 - 128);
        assert(conv_spec(s as int, SampleFmt::U8, SampleFmt::I8) == s as int - 128);
    }
    let u: u64 = s as u64;
    let m: u64 = u;
    (m as i64 - 128) as i8
}

/// Converts an unsigned 8-bit sample to signed 16-bit, widening it by a power of two.
pub fn u8_to_i16(s: u8) -> (r: i16)
    ensures
        r as int == conv_spec(s as int, SampleFmt::U8, SampleFmt::I16),
{
    proof {
        lemma2_to64();
        lemma2_to64_rest();
        lemma_conv_biased(s as int, SampleFmt::U8, SampleFmt::I16);
        assert(conv_spec(s as int, SampleFmt::U8, SampleFmt::I16) == (s as int - 0) * 256 - 32_768);
    }
    let u: u64 = s as u64;
    let m: u64 = u * 256u64;
    (m as i64 - 32_768) as i16
}

/// Converts an unsigned 8-bit sample to signed 24-bit, widening it by a power of two.
pub fn u8_to_i24(s: u8) -> (r: I24)
    ensures
        r@ == conv_spec(s as int, SampleFmt::U8, SampleFmt::I24),
{
    proof {
        lemma2_to64();
        lemma2_to64_rest();
        lemma_conv_biased(s as int, SampleFmt::U8, SampleFmt::I24);
        assert(conv_spec(s as int, SampleFmt::U8, SampleFmt::I24) == (s as int - 0) * 65_536 - 8_388_608);
    }
    let u: u64 = s as u64;
    let m: u64 = u * 65_536u64;
    I24::new_unchecked((m as i64 - 8_388_608) as i32)
}

/// Converts an unsigned 8-bit sample to signed 32-bit, widening it by a power of two.
pub fn u8_to_i32(s: u8) -> (r: i32)
    ensures
        r as int == conv_spec(s as int, SampleFmt::U8, SampleFmt::I32),
{
    proof {
        lemma2_to64();
        lemma2_to64_rest();
        lemma_conv_biased(s as int, SampleFmt::U8, SampleFmt::I32);
        assert(conv_spec(s as int, SampleFmt::U8, SampleFmt::I32) == (s as int - 0) * 16_777_216 - 2_147_483_648);
    }
    let u: u64 = s as u64;
    let m: u64 = u * 16_777_216u64;
    (m as i64 - 2_147_483_648) as i32
}

/// Converts an unsigned 8-bit sample to signed 48-bit, widening it by a power of two.
pub fn u8_to_i48(s: u8) -> (r: I48)
    ensures
        r@ == conv_spec(s as int, SampleFmt::U8, SampleFmt::I48),
{
    proof {
        lemma2_to64();
        lemma2_to64_rest();
        lemma_conv_biased(s as int, SampleFmt::U8, SampleFmt::I48);
        assert(conv_spec(s as int, SampleFmt::U8, SampleFmt::I48) == (s as int - 0) * 1_099_511_627_776 - 140_737_488_355_328);
    }
    let u: u64 = s as u64;
    let m: u64 = u * 1_099_511_627_776u64;
    I48::new_unchecked((m as i64 - 140_737_488_355_328))
}

/// Converts an unsigned 8-bit sample to signed 64-bit, widening it by a power of two.
pub fn u8_to_i64(s: u8) -> (r: i64)
    ensures
        r as int == conv_spec(s as int, SampleFmt::U8, SampleFmt::I64),
{
    proof {
        lemma2_to64();
        lemma2_to64_rest();
        lemma_conv_biased(s as int, SampleFmt::U8, SampleFmt::I64);
        assert(conv_spec(s as int, SampleFmt::U8, SampleFmt::I64) == (s as int - 0) * 72_057_594_037_927_936 - 9_223_372_036_854_775_808);
    }
    let u: u64 = s as u64;
    let m: u64 = u * 72_057_594_037_927_936u64;
    if m >= 9_223_372_036_854_775_808u64 {
        (m - 9_223_372_036_854_775_808u64) as i64
    } else {
        (m as i64) - 9_223_372_036_854_775_807 - 1
    }
}

/// Converts an unsigned 8-bit sample to unsigned 16-bit, widening it by a power of two.
pub fn u8_to_u16(s: u8) -> (r: u16)
    ensures
        r as int == conv_spec(s as int, SampleFmt::U8, SampleFmt::U16),
{
    proof {
        lemma2_to64();
        lemma2_to64_rest();
        lemma_conv_biased(s as int, SampleFmt::U8, SampleFmt::U16);
        assert(conv_spec(s as int, SampleFmt::U8, SampleFmt::U16) == (s as int - 0) * 256 + 0);
    }
    let u: u64 = s as u64;
    let m: u64 = u * 256u64;
    m as u16
}

/// Converts an unsigned 8-bit sample to unsigned 24-bit, widening it by a power of two.
pub fn u8_to_u24(s: u8) -> (r: U24)
    ensures
        r@ == conv_spec(s as int, SampleFmt::U8, SampleFmt::U24),
{
    proof {
        lemma2_to64();
        lemma2_to64_rest();
        lemma_conv_biased(s as int, SampleFmt::U8, SampleFmt::U24);
        assert(conv_spec(s as int, SampleFmt::U8, SampleFmt::U24) == (s as int - 0) * 65_536 + 0);
    }
    let u: u64 = s as u64;
    let m: u64 = u * 65_536u64;
    U24::new_unchecked(m as i32)
}

/// Converts an unsigned 8-bit sample to unsigned 32-bit, widening it by a power of two.
pub fn u8_to_u32(s: u8) -> (r: u32)
    ensures
        r as int == conv_spec(s as int, SampleFmt::U8, SampleFmt::U32),
{
    proof {
        lemma2_to64();
        lemma2_to64_rest();
        lemma_conv_biased(s as int, SampleFmt::U8, SampleFmt::U32);
        assert(conv_spec(s as int, SampleFmt::U8, SampleFmt::U32) == (s as int - 0) * 16_777_216 + 0);
    }
    let u: u64 = s as u64;
    let m: u64 = u * 16_777_216u64;
    m as u32
}

/// Converts an unsigned 8-bit sample to unsigned 48-bit, widening it by a power of two.
pub fn u8_to_u48(s: u8) -> (r: U48)
    ensures
        r@ == conv_spec(s as int, SampleFmt::U8, SampleFmt::U48),
{
    proof {
        lemma2_to64();
        lemma2_to64_rest();
        lemma_conv_biased(s as int, SampleFmt::U8, SampleFmt::U48);
        assert(conv_spec(s as int, SampleFmt::U8, SampleFmt::U48) == (s as int - 0) * 1_099_511_627_776 + 0);
    }
    let u: u64 = s as u64;
    let m: u64 = u * 1_099_511_627_776u64;
    U48::new_unchecked(m as i64)
}

/// Converts an unsigned 8-bit sample to unsigned 64-bit, widening it by a power of two.
pub fn u8_to_u64(s: u8) -> (r: u64)
    ensures
        r as int == conv_spec(s as int, SampleFmt::U8, SampleFmt::U64),
{
    proof {
        lemma2_to64();
        lemma2_to64_rest();
        lemma_conv_biased(s as int, SampleFmt::U8, SampleFmt::U64);
        assert(conv_spec(s as int, SampleFmt::U8, SampleFmt::U64) == (s as int - 0) * 72_057_594_037_927_936 + 0);
    }
    let u: u64 = s as u64;
    let m: u64 = u * 72_057_594_037_927_936u64;
    m
}

/// Converts an unsigned 16-bit sample to signed 8-bit, truncating the low-order bits.
pub fn u16_to_i8(s: u16) -> (r: i8)
    ensures
        r as int == conv_spec(s as int, SampleFmt::U16, SampleFmt::I8),
{
    proof {
        lemma2_to64();
        lemma2_to64_rest();
        lemma_conv_biased(s as int, SampleFmt::U16, SampleFmt::I8);
        assert(conv_spec(s as int, SampleFmt::U16, SampleFmt::I8) == (s as int - 0) / 256 - 128);
    }
    let u: u64 = s as u64;
    let m: u64 = u / 256u64;
    (m as i64 - 128) as i8
}

/// Converts an unsigned 16-bit sample to signed 16-bit, re-biasing it around the midpoint.
pub fn u16_to_i16(s: u16) -> (r: i16)
    ensures
        r as int == conv_spec(s as int, SampleFmt::U16, SampleFmt::I16),
{
    proof {
        lemma2_to64();
        lemma2_to64_rest();
        lemma_conv_biased(s as int, SampleFmt::U16, SampleFmt::I16);
        assert(conv_spec(s as int, SampleFmt::U16, SampleFmt::I16) == (s as int - 0) * 1 - 32_768);
        assert(conv_spec(s as int, SampleFmt::U16, SampleFmt::I16) == s as int - 32_768);
    }
    let u: u64 = s as u64;
    let m: u64 = u;
    (m as i64 - 32_768) as i16
}

/// Converts an unsigned 16-bit sample to signed 24-bit, widening it by a power of two.
pub fn u16_to_i24(s: u16) -> (r: I24)
    ensures
        r@ == conv_spec(s as int, SampleFmt::U16, SampleFmt::I24),
{
    proof {
        lemma2_to64();
        lemma2_to64_rest();
        lemma_conv_biased(s as int, SampleFmt::U16, SampleFmt::I24);
        assert(conv_spec(s as int, SampleFmt::U16, SampleFmt::I24) == (s as int - 0) * 256 - 8_388_608);
    }
    let u: u64 = s as u64;
    let m: u64 = u * 256u64;
    I24::new_unchecked((m as i64 - 8_388_608) as i32)
}

/// Converts an unsigned 16-bit sample to signed 32-bit, widening it by a power of two.
pub fn u16_to_i32(s: u16) -> (r: i32)
    ensures
        r as int == conv_spec(s as int, SampleFmt::U16, SampleFmt::I32),
{
    proof {
        lemma2_to64();
        lemma2_to64_rest();
        lemma_conv_biased(s as int, SampleFmt::U16, SampleFmt::I32);
        assert(conv_spec(s as int, SampleFmt::U16, SampleFmt::I32) == (s as int - 0) * 65_536 - 2_147_483_648);
    }
    let u: u64 = s as u64;
    let m: u64 = u * 65_536u64;
    (m as i64 - 2_147_483_648) as i32
}

/// Converts an unsigned 16-bit sample to signed 48-bit, widening it by a power of two.
pub fn u16_to_i48(s: u16) -> (r: I48)
    ensures
        r@ == conv_spec(s as int, SampleFmt::U16, SampleFmt::I48),
{
    proof {
        lemma2_to64();
        lemma2_to64_rest();
        lemma_conv_biased(s as int, SampleFmt::U16, SampleFmt::I48);
        assert(conv_spec(s as int, SampleFmt::U16, SampleFmt::I48) == (s as int - 0) * 4_294_967_296 - 140_737_488_355_328);
    }
    let u: u64 = s as u64;
    let m: u64 = u * 4_294_967_296u64;
    I48::new_unchecked((m as i64 - 140_737_488_355_328))
}

/// Converts an unsigned 16-bit sample to signed 64-bit, widening it by a power of two.
pub fn u16_to_i64(s: u16) -> (r: i64)
    ensures
        r as int == conv_spec(s as int, SampleFmt::U16, SampleFmt::I64),
{
    proof {
        lemma2_to64();
        lemma2_to64_rest();
        lemma_conv_biased(s as int, SampleFmt::U16, SampleFmt::I64);
        assert(conv_spec(s as int, SampleFmt::U16, SampleFmt::I64) == (s as int - 0) * 281_474_976_710_656 - 9_223_372_036_854_775_808);
    }
    let u: u64 = s as u64;
    let m: u64 = u * 281_474_976_710_656u64;
    if m >= 9_223_372_036_854_775_808u64 {
        (m - 9_223_372_036_854_775_808u64) as i64
    } else {
        (m as i64) - 9_223_372_036_854_775_807 - 1
    }
}

/// Converts an unsigned 16-bit sample to unsigned 8-bit, truncating the low-order bits.
pub fn u16_to_u8(s: u16) -> (r: u8)
    ensures
        r as int == conv_spec(s as int, SampleFmt::U16, SampleFmt::U8),
{
    proof {
        lemma2_to64();
        lemma2_to64_rest();
        lemma_conv_biased(s as int, SampleFmt::U16, SampleFmt::U8);
        assert(conv_spec(s as int, SampleFmt::U16, SampleFmt::U8) == (s as int - 0) / 256 + 0);
    }
    let u: u64 = s as u64;
    let m: u64 = u / 256u64;
    m as u8
}

/// Converts an unsigned 16-bit sample to unsigned 24-bit, widening it by a power of two.
pub fn u16_to_u24(s: u16) -> (r: U24)
    ensures
        r@ == conv_spec(s as int, SampleFmt::U16, SampleFmt::U24),
{
    proof {
        lemma2_to64();
        lemma2_to64_rest();
        lemma_conv_biased(s as int, SampleFmt::U16, SampleFmt::U24);
        assert(conv_spec(s as int, SampleFmt::U16, SampleFmt::U24) == (s as int - 0) * 256 + 0);
    }
    let u: u64 = s as u64;
    let m: u64 = u * 256u64;
    U24::new_unchecked(m as i32)
}

/// Converts an unsigned 16-bit sample to unsigned 32-bit, widening it by a power of two.
pub fn u16_to_u32(s: u16) -> (r: u32)
    ensures
        r as int == conv_spec(s as int, SampleFmt::U16, SampleFmt::U32),
{
    proof {
        lemma2_to64();
        lemma2_to64_rest();
        lemma_conv_biased(s as int, SampleFmt::U16, SampleFmt::U32);
        assert(conv_spec(s as int, SampleFmt::U16, SampleFmt::U32) == (s as int - 0) * 65_536 + 0);
    }
    let u: u64 = s as u64;
    let m: u64 = u * 65_536u64;
    m as u32
}

/// Converts an unsigned 16-bit sample to unsigned 48-bit, widening it by a power of two.
pub fn u16_to_u48(s: u16) -> (r: U48)
    ensures
        r@ == conv_spec(s as int, SampleFmt::U16, SampleFmt::U48),
{
    proof {
        lemma2_to64();
        lemma2_to64_rest();
        lemma_conv_biased(s as int, SampleFmt::U16, SampleFmt::U48);
        assert(conv_spec(s as int, SampleFmt::U16, SampleFmt::U48) == (s as int - 0) * 4_294_967_296 + 0);
    }
    let u: u64 = s as u64;
    let m: u64 = u * 4_294_967_296u64;
    U48::new_unchecked(m as i64)
}

/// Converts an unsigned 16-bit sample to unsigned 64-bit, widening it by a power of two.
pub fn u16_to_u64(s: u16) -> (r: u64)
    ensures
        r as int == conv_spec(s as int, SampleFmt::U16, SampleFmt::U64),
{
    proof {
        lemma2_to64();
        lemma2_to64_rest();
        lemma_conv_biased(s as int, SampleFmt::U16, SampleFmt::U64);
        assert(conv_spec(s as int, SampleFmt::U16, SampleFmt::U64) == (s as int - 0) * 281_474_976_710_656 + 0);
    }
    let u: u64 = s as u64;
    let m: u64 = u * 281_474_976_710_656u64;
    m
}

/// Converts an unsigned 24-bit sample to signed 8-bit, truncating the low-order bits.
pub fn u24_to_i8(s: U24) -> (r: i8)
    ensures
        r as int == conv_spec(s@, SampleFmt::U24, SampleFmt::I8),
{
    proof {
        lemma2_to64();
        lemma2_to64_rest();
        lemma_conv_biased(s@, SampleFmt::U24, SampleFmt::I8);
        assert(conv_spec(s@, SampleFmt::U24, SampleFmt::I8) == (s@ - 0) / 65_536 - 128);
    }
    let u: u64 = s.inner() as u64;
    let m: u64 = u / 65_536u64;
    (m as i64 - 128) as i8
}

/// Converts an unsigned 24-bit sample to signed 16-bit, truncating the low-order bits.
pub fn u24_to_i16(s: U24) -> (r: i16)
    ensures
        r as int == conv_spec(s@, SampleFmt::U24, SampleFmt::I16),
{
    proof {
        lemma2_to64();
        lemma2_to64_rest();
        lemma_conv_biased(s@, SampleFmt::U24, SampleFmt::I16);
        assert(conv_spec(s@, SampleFmt::U24, SampleFmt::I16) == (s@ - 0) / 256 - 32_768);
    }
    let u: u64 = s.inner() as u64;
    let m: u64 = u / 256u64;
    (m as i64 - 32_768) as i16
}

/// Converts an unsigned 24-bit sample to signed 24-bit, re-biasing it around the midpoint.
pub fn u24_to_i24(s: U24) -> (r: I24)
    ensures
        r@ == conv_spec(s@, SampleFmt::U24, SampleFmt::I24),
{
    proof {
        lemma2_to64();
        lemma2_to64_rest();
        lemma_conv_biased(s@, SampleFmt::U24, SampleFmt::I24);
        assert(conv_spec(s@, SampleFmt::U24, SampleFmt::I24) == (s@ - 0) * 1 - 8_388_608);
        assert(conv_spec(s@, SampleFmt::U24, SampleFmt::I24) == s@ - 8_388_608);
    }
    let u: u64 = s.inner() as u64;
    let m: u64 = u;
    I24::new_unchecked((m as i64 - 8_388_608) as i32)
}

/// Converts an unsigned 24-bit sample to signed 32-bit, widening it by a power of two.
pub fn u24_to_i32(s: U24) -> (r: i32)
    ensures
        r as int == conv_spec(s@, SampleFmt::U24, SampleFmt::I32),
{
    proof {
        lemma2_to64();
        lemma2_to64_rest();
        lemma_conv_biased(s@, SampleFmt::U24, SampleFmt::I32);
        assert(conv_spec(s@, SampleFmt::U24, SampleFmt::I32) == (s@ - 0) * 256 - 2_147_483_648);
    }
    let u: u64 = s.inner() as u64;
    let m: u64 = u * 256u64;
    (m as i64 - 2_147_483_648) as i32
}

/// Converts an unsigned 24-bit sample to signed 48-bit, widening it by a power of two.
pub fn u24_to_i48(s: U24) -> (r: I48)
    ensures
        r@ == conv_spec(s@, SampleFmt::U24, SampleFmt::I48),
{
    proof {
        lemma2_to64();
        lemma2_to64_rest();
        lemma_conv_biased(s@, SampleFmt::U24, SampleFmt::I48);
        assert(conv_spec(s@, SampleFmt::U24, SampleFmt::I48) == (s@ - 0) * 16_777_216 - 140_737_488_355_328);
    }
    let u: u64 = s.inner() as u64;
    let m: u64 = u * 16_777_216u64;
    I48::new_unchecked((m as i64 - 140_737_488_355_328))
}

/// Converts an unsigned 24-bit sample to signed 64-bit, widening it by a power of two.
pub fn u24_to_i64(s: U24) -> (r: i64)
    ensures
        r as int == conv_spec(s@, SampleFmt::U24, SampleFmt::I64),
{
    proof {
        lemma2_to64();
        lemma2_to64_rest();
        lemma_conv_biased(s@, SampleFmt::U24, SampleFmt::I64);
        assert(conv_spec(s@, SampleFmt::U24, SampleFmt::I64) == (s@ - 0) * 1_099_511_627_776 - 9_223_372_036_854_775_808);
    }
    let u: u64 = s.inner() as u64;
    let m: u64 = u * 1_099_511_627_776u64;
    if m >= 9_223_372_036_854_775_808u64 {
        (m - 9_223_372_036_854_775_808u64) as i64
    } else {
        (m as i64) - 9_223_372_036_854_775_807 - 1
    }
}

/// Converts an unsigned 24-bit sample to unsigned 8-bit, truncating the low-order bits.
pub fn u24_to_u8(s: U24) -> (r: u8)
    ensures
        r as int == conv_spec(s@, SampleFmt::U24, SampleFmt::U8),
{
    proof {
        lemma2_to64();
        lemma2_to64_rest();
        lemma_conv_biased(s@, SampleFmt::U24, SampleFmt::U8);
        assert(conv_spec(s@, SampleFmt::U24, SampleFmt::U8) == (s@ - 0) / 65_536 + 0);
    }
    let u: u64 = s.inner() as u64;
    let m: u64 = u / 65_536u64;
    m as u8
}

/// Converts an unsigned 24-bit sample to unsigned 16-bit, truncating the low-order bits.
pub fn u24_to_u16(s: U24) -> (r: u16)
    ensures
        r as int == conv_spec(s@, SampleFmt::U24, SampleFmt::U16),
{
    proof {
        lemma2_to64();
        lemma2_to64_rest();
        lemma_conv_biased(s@, SampleFmt::U24, SampleFmt::U16);
        assert(conv_spec(s@, SampleFmt::U24, SampleFmt::U16) == (s@ - 0) / 256 + 0);
    }
    let u: u64 = s.inner() as u64;
    let m: u64 = u / 256u64;
    m as u16
}

/// Converts an unsigned 24-bit sample to unsigned 32-bit, widening it by a power of two.
pub fn u24_to_u32(s: U24) -> (r: u32)
    ensures
        r as int == conv_spec(s@, SampleFmt::U24, SampleFmt::U32),
{
    proof {
        lemma2_to64();
        lemma2_to64_rest();
        lemma_conv_biased(s@, SampleFmt::U24, SampleFmt::U32);
        assert(conv_spec(s@, SampleFmt::U24, SampleFmt::U32) == (s@ - 0) * 256 + 0);
    }
    let u: u64 = s.inner() as u64;
    let m: u64 = u * 256u64;
    m as u32
}

/// Converts an unsigned 24-bit sample to unsigned 48-bit, widening it by a power of two.
pub fn u24_to_u48(s: U24) -> (r: U48)
    ensures
        r@ == conv_spec(s@, SampleFmt::U24, SampleFmt::U48),
{
    proof {
        lemma2_to64();
        lemma2_to64_rest();
        lemma_conv_biased(s@, SampleFmt::U24, SampleFmt::U48);
        assert(conv_spec(s@, SampleFmt::U24, SampleFmt::U48) == (s@ - 0) * 16_777_216 + 0);
    }
    let u: u64 = s.inner() as u64;
    let m: u64 = u * 16_777_216u64;
    U48::new_unchecked(m as i64)
}

/// Converts an unsigned 24-bit sample to unsigned 64-bit, widening it by a power of two.
pub fn u24_to_u64(s: U24) -> (r: u64)
    ensures
        r as int == conv_spec(s@, SampleFmt::U24, SampleFmt::U64),
{
    proof {
        lemma2_to64();
        lemma2_to64_rest();
        lemma_conv_biased(s@, SampleFmt::U24, SampleFmt::U64);
        assert(conv_spec(s@, SampleFmt::U24, SampleFmt::U64) == (s@ - 0) * 1_099_511_627_776 + 0);
    }
    let u: u64 = s.inner() as u64;
    let m: u64 = u * 1_099_511_627_776u64;
    m
}

/// Converts an unsigned 32-bit sample to signed 8-bit, truncating the low-order bits.
pub fn u32_to_i8(s: u32) -> (r: i8)
    ensures
        r as int == conv_spec(s as int, SampleFmt::U32, SampleFmt::I8),
{
    proof {
        lemma2_to64();
        lemma2_to64_rest();
        lemma_conv_biased(s as int, SampleFmt::U32, SampleFmt::I8);
        assert(conv_spec(s as int, SampleFmt::U32, SampleFmt::I8) == (s as int - 0) / 16_777_216 - 128);
    }
    let u: u64 = s as u64;
    let m: u64 = u / 16_777_216u64;
    (m as i64 - 128) as i8
}

/// Converts an unsigned 32-bit sample to signed 16-bit, truncating the low-order bits.
pub fn u32_to_i16(s: u32) -> (r: i16)
    ensures
        r as int == conv_spec(s as int, SampleFmt::U32, SampleFmt::I16),
{
    proof {
        lemma2_to64();
        lemma2_to64_rest();
        lemma_conv_biased(s as int, SampleFmt::U32, SampleFmt::I16);
        assert(conv_spec(s as int, SampleFmt::U32, SampleFmt::I16) == (s as int - 0) / 65_536 - 32_768);
    }
    let u: u64 = s as u64;
    let m: u64 = u / 65_536u64;
    (m as i64 - 32_768) as i16
}

/// Converts an unsigned 32-bit sample to signed 24-bit, truncating the low-order bits.
pub fn u32_to_i24(s: u32) -> (r: I24)
    ensures
        r@ == conv_spec(s as int, SampleFmt::U32, SampleFmt::I24),
{
    proof {
        lemma2_to64();
        lemma2_to64_rest();
        lemma_conv_biased(s as int, SampleFmt::U32, SampleFmt::I24);
        assert(conv_spec(s as int, SampleFmt::U32, SampleFmt::I24) == (s as int - 0) / 256 - 8_388_608);
    }
    let u: u64 = s as u64;
    let m: u64 = u / 256u64;
    I24::new_unchecked((m as i64 - 8_388_608) as i32)
}

/// Converts an unsigned 32-bit sample to signed 32-bit, re-biasing it around the midpoint.
pub fn u32_to_i32(s: u32) -> (r: i32)
    ensures
        r as int == conv_spec(s as int, SampleFmt::U32, SampleFmt::I32),
{
    proof {
        lemma2_to64();
        lemma2_to64_rest();
        lemma_conv_biased(s as int, SampleFmt::U32, SampleFmt::I32);
        assert(conv_spec(s as int, SampleFmt::U32, SampleFmt::I32) == (s as int - 0) * 1 - 2_147_483_648);
        assert(conv_spec(s as int, SampleFmt::U32, SampleFmt::I32) == s as int - 2_147_483_648);
    }
    let u: u64 = s as u64;
    let m: u64 = u;
    (m as i64 - 2_147_483_648) as i32
}

/// Converts an unsigned 32-bit sample to signed 48-bit, widening it by a power of two.
pub fn u32_to_i48(s: u32) -> (r: I48)
    ensures
        r@ == conv_spec(s as int, SampleFmt::U32, SampleFmt::I48),
{
    proof {
        lemma2_to64();
        lemma2_to64_rest();
        lemma_conv_biased(s as int, SampleFmt::U32, SampleFmt::I48);
        assert(conv_spec(s as int, SampleFmt::U32, SampleFmt::I48) == (s as int - 0) * 65_536 - 140_737_488_355_328);
    }
    let u: u64 = s as u64;
    let m: u64 = u * 65_536u64;
    I48::new_unchecked((m as i64 - 140_737_488_355_328))
}

/// Converts an unsigned 32-bit sample to signed 64-bit, widening it by a power of two.
pub fn u32_to_i64(s: u32) -> (r: i64)
    ensures
        r as int == conv_spec(s as int, SampleFmt::U32, SampleFmt::I64),
{
    proof {
        lemma2_to64();
        lemma2_to64_rest();
        lemma_conv_biased(s as int, SampleFmt::U32, SampleFmt::I64);
        assert(conv_spec(s as int, SampleFmt::U32, SampleFmt::I64) == (s as int - 0) * 4_294_967_296 - 9_223_372_036_854_775_808);
    }
    let u: u64 = s as u64;
    let m: u64 = u * 4_294_967_296u64;
    if m >= 9_223_372_036_854_775_808u64 {
        (m - 9_223_372_036_854_775_808u64) as i64
    } else {
        (m as i64) - 9_223_372_036_854_775_807 - 1
    }
}

/// Converts an unsigned 32-bit sample to unsigned 8-bit, truncating the low-order bits.
pub fn u32_to_u8(s: u32) -> (r: u8)
    ensures
        r as int == conv_spec(s as int, SampleFmt::U32, SampleFmt::U8),
{
    proof {
        lemma2_to64();
        lemma2_to64_rest();
        lemma_conv_biased(s as int, SampleFmt::U32, SampleFmt::U8);
        assert(conv_spec(s as int, SampleFmt::U32, SampleFmt::U8) == (s as int - 0) / 16_777_216 + 0);
    }
    let u: u64 = s as u64;
    let m: u64 = u / 16_777_216u64;
    m as u8
}

/// Converts an unsigned 32-bit sample to unsigned 16-bit, truncating the low-order bits.
pub fn u32_to_u16(s: u32) -> (r: u16)
    ensures
        r as int == conv_spec(s as int, SampleFmt::U32, SampleFmt::U16),
{
    proof {
        lemma2_to64();
        lemma2_to64_rest();
        lemma_conv_biased(s as int, SampleFmt::U32, SampleFmt::U16);
        assert(conv_spec(s as int, SampleFmt::U32, SampleFmt::U16) == (s as int - 0) / 65_536 + 0);
    }
    let u: u64 = s as u64;
    let m: u64 = u / 65_536u64;
    m as u16
}

/// Converts an unsigned 32-bit sample to unsigned 24-bit, truncating the low-order bits.
pub fn u32_to_u24(s: u32) -> (r: U24)
    ensures
        r@ == conv_spec(s as int, SampleFmt::U32, SampleFmt::U24),
{
    proof {
        lemma2_to64();
        lemma2_to64_rest();
        lemma_conv_biased(s as int, SampleFmt::U32, SampleFmt::U24);
        assert(conv_spec(s as int, SampleFmt::U32, SampleFmt::U24) == (s as int - 0) / 256 + 0);
    }
    let u: u64 = s as u64;
    let m: u64 = u / 256u64;
    U24::new_unchecked(m as i32)
}

/// Converts an unsigned 32-bit sample to unsigned 48-bit, widening it by a power of two.
pub fn u32_to_u48(s: u32) -> (r: U48)
    ensures
        r@ == conv_spec(s as int, SampleFmt::U32, SampleFmt::U48),
{
    proof {
        lemma2_to64();
        lemma2_to64_rest();
        lemma_conv_biased(s as int, SampleFmt::U32, SampleFmt::U48);
        assert(conv_spec(s as int, SampleFmt::U32, SampleFmt::U48) == (s as int - 0) * 65_536 + 0);
    }
    let u: u64 = s as u64;
    let m: u64 = u * 65_536u64;
    U48::new_unchecked(m as i64)
}

/// Converts an unsigned 32-bit sample to unsigned 64-bit, widening it by a power of two.
pub fn u32_to_u64(s: u32) -> (r: u64)
    ensures
        r as int == conv_spec(s as int, SampleFmt::U32, SampleFmt::U64),
{
    proof {
        lemma2_to64();
        lemma2_to64_rest();
        lemma_conv_biased(s as int, SampleFmt::U32, SampleFmt::U64);
        assert(conv_spec(s as int, SampleFmt::U32, SampleFmt::U64) == (s as int - 0) * 4_294_967_296 + 0);
    }
    let u: u64 = s as u64;
    let m: u64 = u * 4_294_967_296u64;
    m
}

/// Converts an unsigned 48-bit sample to signed 8-bit, truncating the low-order bits.
pub fn u48_to_i8(s: U48) -> (r: i8)
    ensures
        r as int == conv_spec(s@, SampleFmt::U48, SampleFmt::I8),
{
    proof {
        lemma2_to64();
        lemma2_to64_rest();
        lemma_conv_biased(s@, SampleFmt::U48, SampleFmt::I8);
        assert(conv_spec(s@, SampleFmt::U48, SampleFmt::I8) == (s@ - 0) / 1_099_511_627_776 - 128);
    }
    let u: u64 = s.inner() as u64;
    let m: u64 = u / 1_099_511_627_776u64;
    (m as i64 - 128) as i8
}

/// Converts an unsigned 48-bit sample to signed 16-bit, truncating the low-order bits.
pub fn u48_to_i16(s: U48) -> (r: i16)
    ensures
        r as int == conv_spec(s@, SampleFmt::U48, SampleFmt::I16),
{
    proof {
        lemma2_to64();
        lemma2_to64_rest();
        lemma_conv_biased(s@, SampleFmt::U48, SampleFmt::I16);
        assert(conv_spec(s@, SampleFmt::U48, SampleFmt::I16) == (s@ - 0) / 4_294_967_296 - 32_768);
    }
    let u: u64 = s.inner() as u64;
    let m: u64 = u / 4_294_967_296u64;
    (m as i64 - 32_768) as i16
}

/// Converts an unsigned 48-bit sample to signed 24-bit, truncating the low-order bits.
pub fn u48_to_i24(s: U48) -> (r: I24)
    ensures
        r@ == conv_spec(s@, SampleFmt::U48, SampleFmt::I24),
{
    proof {
        lemma2_to64();
        lemma2_to64_rest();
        lemma_conv_biased(s@, SampleFmt::U48, SampleFmt::I24);
        assert(conv_spec(s@, SampleFmt::U48, SampleFmt::I24) == (s@ - 0) / 16_777_216 - 8_388_608);
    }
    let u: u64 = s.inner() as u64;
    let m: u64 = u / 16_777_216u64;
    I24::new_unchecked((m as i64 - 8_388_608) as i32)
}

/// Converts an unsigned 48-bit sample to signed 32-bit, truncating the low-order bits.
pub fn u48_to_i32(s: U48) -> (r: i32)
    ensures
        r as int == conv_spec(s@, SampleFmt::U48, SampleFmt::I32),
{
    proof {
        lemma2_to64();
        lemma2_to64_rest();
        lemma_conv_biased(s@, SampleFmt::U48, SampleFmt::I32);
        assert(conv_spec(s@, SampleFmt::U48, SampleFmt::I32) == (s@ - 0) / 65_536 - 2_147_483_648);
    }
    let u: u64 = s.inner() as u64;
    let m: u64 = u / 65_536u64;
    (m as i64 - 2_147_483_648) as i32
}

/// Converts an unsigned 48-bit sample to signed 48-bit, re-biasing it around the midpoint.
pub fn u48_to_i48(s: U48) -> (r: I48)
    ensures
        r@ == conv_spec(s@, SampleFmt::U48, SampleFmt::I48),
{
    proof {
        lemma2_to64();
        lemma2_to64_rest();
        lemma_conv_biased(s@, SampleFmt::U48, SampleFmt::I48);
        assert(conv_spec(s@, SampleFmt::U48, SampleFmt::I48) == (s@ - 0) * 1 - 140_737_488_355_328);
        assert(conv_spec(s@, SampleFmt::U48, SampleFmt::I48) == s@ - 140_737_488_355_328);
    }
    let u: u64 = s.inner() as u64;
    let m: u64 = u;
    I48::new_unchecked((m as i64 - 140_737_488_355_328))
}

/// Converts an unsigned 48-bit sample to signed 64-bit, widening it by a power of two.
pub fn u48_to_i64(s: U48) -> (r: i64)
    ensures
        r as int == conv_spec(s@, SampleFmt::U48, SampleFmt::I64),
{
    proof {
        lemma2_to64();
        lemma2_to64_rest();
        lemma_conv_biased(s@, SampleFmt::U48, SampleFmt::I64);
        assert(conv_spec(s@, SampleFmt::U48, SampleFmt::I64) == (s@ - 0) * 65_536 - 9_223_372_036_854_775_808);
    }
    let u: u64 = s.inner() as u64;
    let m: u64 = u * 65_536u64;
    if m >= 9_223_372_036_854_775_808u64 {
        (m - 9_223_372_036_854_775_808u64) as i64
    } else {
        (m as i64) - 9_223_372_036_854_775_807 - 1
    }
}

/// Converts an unsigned 48-bit sample to unsigned 8-bit, truncating the low-order bits.
pub fn u48_to_u8(s: U48) -> (r: u8)
    ensures
        r as int == conv_spec(s@, SampleFmt::U48, SampleFmt::U8),
{
    proof {
        lemma2_to64();
        lemma2_to64_rest();
        lemma_conv_biased(s@, SampleFmt::U48, SampleFmt::U8);
        assert(conv_spec(s@, SampleFmt::U48, SampleFmt::U8) == (s@ - 0) / 1_099_511_627_776 + 0);
    }
    let u: u64 = s.inner() as u64;
    let m: u64 = u / 1_099_511_627_776u64;
    m as u8
}

/// Converts an unsigned 48-bit sample to unsigned 16-bit, truncating the low-order bits.
pub fn u48_to_u16(s: U48) -> (r: u16)
    ensures
        r as int == conv_spec(s@, SampleFmt::U48, SampleFmt::U16),
{
    proof {
        lemma2_to64();
        lemma2_to64_rest();
        lemma_conv_biased(s@, SampleFmt::U48, SampleFmt::U16);
        assert(conv_spec(s@, SampleFmt::U48, SampleFmt::U16) == (s@ - 0) / 4_294_967_296 + 0);
    }
    let u: u64 = s.inner() as u64;
    let m: u64 = u / 4_294_967_296u64;
    m as u16
}

/// Converts an unsigned 48-bit sample to unsigned 24-bit, truncating the low-order bits.
pub fn u48_to_u24(s: U48) -> (r: U24)
    ensures
        r@ == conv_spec(s@, SampleFmt::U48, SampleFmt::U24),
{
    proof {
        lemma2_to64();
        lemma2_to64_rest();
        lemma_conv_biased(s@, SampleFmt::U48, SampleFmt::U24);
        assert(conv_spec(s@, SampleFmt::U48, SampleFmt::U24) == (s@ - 0) / 16_777_216 + 0);
    }
    let u: u64 = s.inner() as u64;
    let m: u64 = u / 16_777_216u64;
    U24::new_unchecked(m as i32)
}

/// Converts an unsigned 48-bit sample to unsigned 32-bit, truncating the low-order bits.
pub fn u48_to_u32(s: U48) -> (r: u32)
    ensures
        r as int == conv_spec(s@, SampleFmt::U48, SampleFmt::U32),
{
    proof {
        lemma2_to64();
        lemma2_to64_rest();
        lemma_conv_biased(s@, SampleFmt::U48, SampleFmt::U32);
        assert(conv_spec(s@, SampleFmt::U48, SampleFmt::U32) == (s@ - 0) / 65_536 + 0);
    }
    let u: u64 = s.inner() as u64;
    let m: u64 = u / 65_536u64;
    m as u32
}

/// Converts an unsigned 48-bit sample to unsigned 64-bit, widening it by a power of two.
pub fn u48_to_u64(s: U48) -> (r: u64)
    ensures
        r as int == conv_spec(s@, SampleFmt::U48, SampleFmt::U64),
{
    proof {
        lemma2_to64();
        lemma2_to64_rest();
        lemma_conv_biased(s@, SampleFmt::U48, SampleFmt::U64);
        assert(conv_spec(s@, SampleFmt::U48, SampleFmt::U64) == (s@ - 0) * 65_536 + 0);
    }
    let u: u64 = s.inner() as u64;
    let m: u64 = u * 65_536u64;
    m
}

/// Converts an unsigned 64-bit sample to signed 8-bit, truncating the low-order bits.
pub fn u64_to_i8(s: u64) -> (r: i8)
    ensures
        r as int == conv_spec(s as int, SampleFmt::U64, SampleFmt::I8),
{
    proof {
        lemma2_to64();
        lemma2_to64_rest();
        lemma_conv_biased(s as int, SampleFmt::U64, SampleFmt::I8);
        assert(conv_spec(s as int, SampleFmt::U64, SampleFmt::I8) == (s as int - 0) / 72_057_594_037_927_936 - 128);
    }
    let u: u64 = s;
    let m: u64 = u / 72_057_594_037_927_936u64;
    (m as i64 - 128) as i8
}

/// Converts an unsigned 64-bit sample to signed 16-bit, truncating the low-order bits.
pub fn u64_to_i16(s: u64) -> (r: i16)
    ensures
        r as int == conv_spec(s as int, SampleFmt::U64, SampleFmt::I16),
{
    proof {
        lemma2_to64();
        lemma2_to64_rest();
        lemma_conv_biased(s as int, SampleFmt::U64, SampleFmt::I16);
        assert(conv_spec(s as int, SampleFmt::U64, SampleFmt::I16) == (s as int - 0) / 281_474_976_710_656 - 32_768);
    }
    let u: u64 = s;
    let m: u64 = u / 281_474_976_710_656u64;
    (m as i64 - 32_768) as i16
}

/// Converts an unsigned 64-bit sample to signed 24-bit, truncating the low-order bits.
pub fn u64_to_i24(s: u64) -> (r: I24)
    ensures
        r@ == conv_spec(s as int, SampleFmt::U64, SampleFmt::I24),
{
    proof {
        lemma2_to64();
        lemma2_to64_rest();
        lemma_conv_biased(s as int, SampleFmt::U64, SampleFmt::I24);
        assert(conv_spec(s as int, SampleFmt::U64, SampleFmt::I24) == (s as int - 0) / 1_099_511_627_776 - 8_388_608);
    }
    let u: u64 = s;
    let m: u64 = u / 1_099_511_627_776u64;
    I24::new_unchecked((m as i64 - 8_388_608) as i32)
}

/// Converts an unsigned 64-bit sample to signed 32-bit, truncating the low-order bits.
pub fn u64_to_i32(s: u64) -> (r: i32)
    ensures
        r as int == conv_spec(s as int, SampleFmt::U64, SampleFmt::I32),
{
    proof {
        lemma2_to64();
        lemma2_to64_rest();
        lemma_conv_biased(s as int, SampleFmt::U64, SampleFmt::I32);
        assert(conv_spec(s as int, SampleFmt::U64, SampleFmt::I32) == (s as int - 0) / 4_294_967_296 - 2_147_483_648);
    }
    let u: u64 = s;
    let m: u64 = u / 4_294_967_296u64;
    (m as i64 - 2_147_483_648) as i32
}

/// Converts an unsigned 64-bit sample to signed 48-bit, truncating the low-order bits.
pub fn u64_to_i48(s: u64) -> (r: I48)
    ensures
        r@ == conv_spec(s as int, SampleFmt::U64, SampleFmt::I48),
{
    proof {
        lemma2_to64();
        lemma2_to64_rest();
        lemma_conv_biased(s as int, SampleFmt::U64, SampleFmt::I48);
        assert(conv_spec(s as int, SampleFmt::U64, SampleFmt::I48) == (s as int - 0) / 65_536 - 140_737_488_355_328);
    }
    let u: u64 = s;
    let m: u64 = u / 65_536u64;
    I48::new_unchecked((m as i64 - 140_737_488_355_328))
}

/// Converts an unsigned 64-bit sample to signed 64-bit, re-biasing it around the midpoint.
pub fn u64_to_i64(s: u64) -> (r: i64)
    ensures
        r as int == conv_spec(s as int, SampleFmt::U64, SampleFmt::I64),
{
    proof {
        lemma2_to64();
        lemma2_to64_rest();
        lemma_conv_biased(s as int, SampleFmt::U64, SampleFmt::I64);
        assert(conv_spec(s as int, SampleFmt::U64, SampleFmt::I64) == (s as int - 0) * 1 - 9_223_372_036_854_775_808);
        assert(conv_spec(s as int, SampleFmt::U64, SampleFmt::I64) == s as int - 9_223_372_036_854_775_808);
    }
    let u: u64 = s;
    let m: u64 = u;
    if m >= 9_223_372_036_854_775_808u64 {
        (m - 9_223_372_036_854_775_808u64) as i64
    } else {
        (m as i64) - 9_223_372_036_854_775_807 - 1
    }
}

/// Converts an unsigned 64-bit sample to unsigned 8-bit, truncating the low-order bits.
pub fn u64_to_u8(s: u64) -> (r: u8)
    ensures
        r as int == conv_spec(s as int, SampleFmt::U64, SampleFmt::U8),
{
    proof {
        lemma2_to64();
        lemma2_to64_rest();
        lemma_conv_biased(s as int, SampleFmt::U64, SampleFmt::U8);
        assert(conv_spec(s as int, SampleFmt::U64, SampleFmt::U8) == (s as int - 0) / 72_057_594_037_927_936 + 0);
    }
    let u: u64 = s;
    let m: u64 = u / 72_057_594_037_927_936u64;
    m as u8
}

/// Converts an unsigned 64-bit sample to unsigned 16-bit, truncating the low-order bits.
pub fn u64_to_u16(s: u64) -> (r: u16)
    ensures
        r as int == conv_spec(s as int, SampleFmt::U64, SampleFmt::U16),
{
    proof {
        lemma2_to64();
        lemma2_to64_rest();
        lemma_conv_biased(s as int, SampleFmt::U64, SampleFmt::U16);
        assert(conv_spec(s as int, SampleFmt::U64, SampleFmt::U16) == (s as int - 0) / 281_474_976_710_656 + 0);
    }
    let u: u64 = s;
    let m: u64 = u / 281_474_976_710_656u64;
    m as u16
}

/// Converts an unsigned 64-bit sample to unsigned 24-bit, truncating the low-order bits.
pub fn u64_to_u24(s: u64) -> (r: U24)
    ensures
        r@ == conv_spec(s as int, SampleFmt::U64, SampleFmt::U24),
{
    proof {
        lemma2_to64();
        lemma2_to64_rest();
        lemma_conv_biased(s as int, SampleFmt::U64, SampleFmt::U24);
        assert(conv_spec(s as int, SampleFmt::U64, SampleFmt::U24) == (s as int - 0) / 1_099_511_627_776 + 0);
    }
    let u: u64 = s;
    let m: u64 = u / 1_099_511_627_776u64;
    U24::new_unchecked(m as i32)
}

/// Converts an unsigned 64-bit sample to unsigned 32-bit, truncating the low-order bits.
pub fn u64_to_u32(s: u64) -> (r: u32)
    ensures
        r as int == conv_spec(s as int, SampleFmt::U64, SampleFmt::U32),
{
    proof {
        lemma2_to64();
        lemma2_to64_rest();
        lemma_conv_biased(s as int, SampleFmt::U64, SampleFmt::U32);
        assert(conv_spec(s as int, SampleFmt::U64, SampleFmt::U32) == (s as int - 0) / 4_294_967_296 + 0);
    }
    let u: u64 = s;
    let m: u64 = u / 4_294_967_296u64;
    m as u32
}

/// Converts an unsigned 64-bit sample to unsigned 48-bit, truncating the low-order bits.
pub fn u64_to_u48(s: u64) -> (r: U48)
    ensures
        r@ == conv_spec(s as int, SampleFmt::U64, SampleFmt::U48),
{
    proof {
        lemma2_to64();
        lemma2_to64_rest();
        lemma_conv_biased(s as int, SampleFmt::U64, SampleFmt::U48);
        assert(conv_spec(s as int, SampleFmt::U64, SampleFmt::U48) == (s as int - 0) / 65_536 + 0);
    }
    let u: u64 = s;
    let m: u64 = u / 65_536u64;
    U48::new_unchecked(m as i64)
}

/// A sample type that can be produced from a sample of type `S`.
///
/// The counterpart of `From`, specialised to sample conversion.  The
/// trait's contract pins every conversion to its mathematical value
/// `from_sample_spec`, which each implementation defines through
/// [`conv_spec`]; the implementations forward to the conversion
/// functions above.
pub trait FromSample<S>: Sized {
    /// The sample of type `Self` that the sample `s` converts to.
    spec fn from_sample_spec(s: S) -> Self;

    /// Produces a sample of type `Self` from the sample `s`.
    fn from_sample_(s: S) -> (r: Self)
        ensures
            r == Self::from_sample_spec(s),
    ;
}

impl<S> FromSample<S> for S {
    /// A sample converts to its own format unchanged.
    open spec fn from_sample_spec(s: S) -> S {
        s
    }

    fn from_sample_(s: S) -> (r: S) {
        s
    }
}

impl FromSample<i8> for i16 {
    open spec fn from_sample_spec(s: i8) -> i16 {
        conv_spec(s as int, SampleFmt::I8, SampleFmt::I16) as i16
    }

    fn from_sample_(s: i8) -> (r: i16) {
        i8_to_i16(s)
    }
}

impl FromSample<i8> for I24 {
    open spec fn from_sample_spec(s: i8) -> I24 {
        I24::spec_from_int(conv_spec(s as int, SampleFmt::I8, SampleFmt::I24))
    }

    fn from_sample_(s: i8) -> (r: I24) {
        let r = i8_to_i24(s);
        proof {
            lemma_i24_from_view(r, conv_spec(s as int, SampleFmt::I8, SampleFmt::I24));
        }
        r
    }
}

impl FromSample<i8> for i32 {
    open spec fn from_sample_spec(s: i8) -> i32 {
        conv_spec(s as int, SampleFmt::I8, SampleFmt::I32) as i32
    }

    fn from_sample_(s: i8) -> (r: i32) {
        i8_to_i32(s)
    }
}

impl FromSample<i8> for I48 {
    open spec fn from_sample_spec(s: i8) -> I48 {
        I48::spec_from_int(conv_spec(s as int, SampleFmt::I8, SampleFmt::I48))
    }

    fn from_sample_(s: i8) -> (r: I48) {
        let r = i8_to_i48(s);
        proof {
            lemma_i48_from_view(r, conv_spec(s as int, SampleFmt::I8, SampleFmt::I48));
        }
        r
    }
}

impl FromSample<i8> for i64 {
    open spec fn from_sample_spec(s: i8) -> i64 {
        conv_spec(s as int, SampleFmt::I8, SampleFmt::I64) as i64
    }

    fn from_sample_(s: i8) -> (r: i64) {
        i8_to_i64(s)
    }
}

impl FromSample<i8> for u8 {
    open spec fn from_sample_spec(s: i8) -> u8 {
        conv_spec(s as int, SampleFmt::I8, SampleFmt::U8) as u8
    }

    fn from_sample_(s: i8) -> (r: u8) {
        i8_to_u8(s)
    }
}

impl FromSample<i8> for u16 {
    open spec fn from_sample_spec(s: i8) -> u16 {
        conv_spec(s as int, SampleFmt::I8, SampleFmt::U16) as u16
    }

    fn from_sample_(s: i8) -> (r: u16) {
        i8_to_u16(s)
    }
}

impl FromSample<i8> for U24 {
    open spec fn from_sample_spec(s: i8) -> U24 {
        U24::spec_from_int(conv_spec(s as int, SampleFmt::I8, SampleFmt::U24))
    }

    fn from_sample_(s: i8) -> (r: U24) {
        let r = i8_to_u24(s);
        proof {
            lemma_u24_from_view(r, conv_spec(s as int, SampleFmt::I8, SampleFmt::U24));
        }
        r
    }
}

impl FromSample<i8> for u32 {
    open spec fn from_sample_spec(s: i8) -> u32 {
        conv_spec(s as int, SampleFmt::I8, SampleFmt::U32) as u32
    }

    fn from_sample_(s: i8) -> (r: u32) {
        i8_to_u32(s)
    }
}

impl FromSample<i8> for U48 {
    open spec fn from_sample_spec(s: i8) -> U48 {
        U48::spec_from_int(conv_spec(s as int, SampleFmt::I8, SampleFmt::U48))
    }

    fn from_sample_(s: i8) -> (r: U48) {
        let r = i8_to_u48(s);
        proof {
            lemma_u48_from_view(r, conv_spec(s as int, SampleFmt::I8, SampleFmt::U48));
        }
        r
    }
}

impl FromSample<i8> for u64 {
    open spec fn from_sample_spec(s: i8) -> u64 {
        conv_spec(s as int, SampleFmt::I8, SampleFmt::U64) as u64
    }

    fn from_sample_(s: i8) -> (r: u64) {
        i8_to_u64(s)
    }
}

impl FromSample<i16> for i8 {
    open spec fn from_sample_spec(s: i16) -> i8 {
        conv_spec(s as int, SampleFmt::I16, SampleFmt::I8) as i8
    }

    fn from_sample_(s: i16) -> (r: i8) {
        i16_to_i8(s)
    }
}

impl FromSample<i16> for I24 {
    open spec fn from_sample_spec(s: i16) -> I24 {
        I24::spec_from_int(conv_spec(s as int, SampleFmt::I16, SampleFmt::I24))
    }

    fn from_sample_(s: i16) -> (r: I24) {
        let r = i16_to_i24(s);
        proof {
            lemma_i24_from_view(r, conv_spec(s as int, SampleFmt::I16, SampleFmt::I24));
        }
        r
    }
}

impl FromSample<i16> for i32 {
    open spec fn from_sample_spec(s: i16) -> i32 {
        conv_spec(s as int, SampleFmt::I16, SampleFmt::I32) as i32
    }

    fn from_sample_(s: i16) -> (r: i32) {
        i16_to_i32(s)
    }
}

impl FromSample<i16> for I48 {
    open spec fn from_sample_spec(s: i16) -> I48 {
        I48::spec_from_int(conv_spec(s as int, SampleFmt::I16, SampleFmt::I48))
    }

    fn from_sample_(s: i16) -> (r: I48) {
        let r = i16_to_i48(s);
        proof {
            lemma_i48_from_view(r, conv_spec(s as int, SampleFmt::I16, SampleFmt::I48));
        }
        r
    }
}

impl FromSample<i16> for i64 {
    open spec fn from_sample_spec(s: i16) -> i64 {
        conv_spec(s as int, SampleFmt::I16, SampleFmt::I64) as i64
    }

    fn from_sample_(s: i16) -> (r: i64) {
        i16_to_i64(s)
    }
}

impl FromSample<i16> for u8 {
    open spec fn from_sample_spec(s: i16) -> u8 {
        conv_spec(s as int, SampleFmt::I16, SampleFmt::U8) as u8
    }

    fn from_sample_(s: i16) -> (r: u8) {
        i16_to_u8(s)
    }
}

impl FromSample<i16> for u16 {
    open spec fn from_sample_spec(s: i16) -> u16 {
        conv_spec(s as int, SampleFmt::I16, SampleFmt::U16) as u16
    }

    fn from_sample_(s: i16) -> (r: u16) {
        i16_to_u16(s)
    }
}

impl FromSample<i16> for U24 {
    open spec fn from_sample_spec(s: i16) -> U24 {
        U24::spec_from_int(conv_spec(s as int, SampleFmt::I16, SampleFmt::U24))
    }

    fn from_sample_(s: i16) -> (r: U24) {
        let r = i16_to_u24(s);
        proof {
            lemma_u24_from_view(r, conv_spec(s as int, SampleFmt::I16, SampleFmt::U24));
        }
        r
    }
}

impl FromSample<i16> for u32 {
    open spec fn from_sample_spec(s: i16) -> u32 {
        conv_spec(s as int, SampleFmt::I16, SampleFmt::U32) as u32
    }

    fn from_sample_(s: i16) -> (r: u32) {
        i16_to_u32(s)
    }
}

impl FromSample<i16> for U48 {
    open spec fn from_sample_spec(s: i16) -> U48 {
        U48::spec_from_int(conv_spec(s as int, SampleFmt::I16, SampleFmt::U48))
    }

    fn from_sample_(s: i16) -> (r: U48) {
        let r = i16_to_u48(s);
        proof {
            lemma_u48_from_view(r, conv_spec(s as int, SampleFmt::I16, SampleFmt::U48));
        }
        r
    }
}

impl FromSample<i16> for u64 {
    open spec fn from_sample_spec(s: i16) -> u64 {
        conv_spec(s as int, SampleFmt::I16, SampleFmt::U64) as u64
    }

    fn from_sample_(s: i16) -> (r: u64) {
        i16_to_u64(s)
    }
}

impl FromSample<I24> for i8 {
    open spec fn from_sample_spec(s: I24) -> i8 {
        conv_spec(s@, SampleFmt::I24, SampleFmt::I8) as i8
    }

    fn from_sample_(s: I24) -> (r: i8) {
        i24_to_i8(s)
    }
}

impl FromSample<I24> for i16 {
    open spec fn from_sample_spec(s: I24) -> i16 {
        conv_spec(s@, SampleFmt::I24, SampleFmt::I16) as i16
    }

    fn from_sample_(s: I24) -> (r: i16) {
        i24_to_i16(s)
    }
}

impl FromSample<I24> for i32 {
    open spec fn from_sample_spec(s: I24) -> i32 {
        conv_spec(s@, SampleFmt::I24, SampleFmt::I32) as i32
    }

    fn from_sample_(s: I24) -> (r: i32) {
        i24_to_i32(s)
    }
}

impl FromSample<I24> for I48 {
    open spec fn from_sample_spec(s: I24) -> I48 {
        I48::spec_from_int(conv_spec(s@, SampleFmt::I24, SampleFmt::I48))
    }

    fn from_sample_(s: I24) -> (r: I48) {
        let r = i24_to_i48(s);
        proof {
            lemma_i48_from_view(r, conv_spec(s@, SampleFmt::I24, SampleFmt::I48));
        }
        r
    }
}

impl FromSample<I24> for i64 {
    open spec fn from_sample_spec(s: I24) -> i64 {
        conv_spec(s@, SampleFmt::I24, SampleFmt::I64) as i64
    }

    fn from_sample_(s: I24) -> (r: i64) {
        i24_to_i64(s)
    }
}

impl FromSample<I24> for u8 {
    open spec fn from_sample_spec(s: I24) -> u8 {
        conv_spec(s@, SampleFmt::I24, SampleFmt::U8) as u8
    }

    fn from_sample_(s: I24) -> (r: u8) {
        i24_to_u8(s)
    }
}

impl FromSample<I24> for u16 {
    open spec fn from_sample_spec(s: I24) -> u16 {
        conv_spec(s@, SampleFmt::I24, SampleFmt::U16) as u16
    }

    fn from_sample_(s: I24) -> (r: u16) {
        i24_to_u16(s)
    }
}

impl FromSample<I24> for U24 {
    open spec fn from_sample_spec(s: I24) -> U24 {
        U24::spec_from_int(conv_spec(s@, SampleFmt::I24, SampleFmt::U24))
    }

    fn from_sample_(s: I24) -> (r: U24) {
        let r = i24_to_u24(s);
        proof {
            lemma_u24_from_view(r, conv_spec(s@, SampleFmt::I24, SampleFmt::U24));
        }
        r
    }
}

impl FromSample<I24> for u32 {
    open spec fn from_sample_spec(s: I24) -> u32 {
        conv_spec(s@, SampleFmt::I24, SampleFmt::U32) as u32
    }

    fn from_sample_(s: I24) -> (r: u32) {
        i24_to_u32(s)
    }
}

impl FromSample<I24> for U48 {
    open spec fn from_sample_spec(s: I24) -> U48 {
        U48::spec_from_int(conv_spec(s@, SampleFmt::I24, SampleFmt::U48))
    }

    fn from_sample_(s: I24) -> (r: U48) {
        let r = i24_to_u48(s);
        proof {
            lemma_u48_from_view(r, conv_spec(s@, SampleFmt::I24, SampleFmt::U48));
        }
        r
    }
}

impl FromSample<I24> for u64 {
    open spec fn from_sample_spec(s: I24) -> u64 {
        conv_spec(s@, SampleFmt::I24, SampleFmt::U64) as u64
    }

    fn from_sample_(s: I24) -> (r: u64) {
        i24_to_u64(s)
    }
}

impl FromSample<i32> for i8 {
    open spec fn from_sample_spec(s: i32) -> i8 {
        conv_spec(s as int, SampleFmt::I32, SampleFmt::I8) as i8
    }

    fn from_sample_(s: i32) -> (r: i8) {
        i32_to_i8(s)
    }
}

impl FromSample<i32> for i16 {
    open spec fn from_sample_spec(s: i32) -> i16 {
        conv_spec(s as int, SampleFmt::I32, SampleFmt::I16) as i16
    }

    fn from_sample_(s: i32) -> (r: i16) {
        i32_to_i16(s)
    }
}

impl FromSample<i32> for I24 {
    open spec fn from_sample_spec(s: i32) -> I24 {
        I24::spec_from_int(conv_spec(s as int, SampleFmt::I32, SampleFmt::I24))
    }

    fn from_sample_(s: i32) -> (r: I24) {
        let r = i32_to_i24(s);
        proof {
            lemma_i24_from_view(r, conv_spec(s as int, SampleFmt::I32, SampleFmt::I24));
        }
        r
    }
}

impl FromSample<i32> for I48 {
    open spec fn from_sample_spec(s: i32) -> I48 {
        I48::spec_from_int(conv_spec(s as int, SampleFmt::I32, SampleFmt::I48))
    }

    fn from_sample_(s: i32) -> (r: I48) {
        let r = i32_to_i48(s);
        proof {
            lemma_i48_from_view(r, conv_spec(s as int, SampleFmt::I32, SampleFmt::I48));
        }
        r
    }
}

impl FromSample<i32> for i64 {
    open spec fn from_sample_spec(s: i32) -> i64 {
        conv_spec(s as int, SampleFmt::I32, SampleFmt::I64) as i64
    }

    fn from_sample_(s: i32) -> (r: i64) {
        i32_to_i64(s)
    }
}

impl FromSample<i32> for u8 {
    open spec fn from_sample_spec(s: i32) -> u8 {
        conv_spec(s as int, SampleFmt::I32, SampleFmt::U8) as u8
    }

    fn from_sample_(s: i32) -> (r: u8) {
        i32_to_u8(s)
    }
}

impl FromSample<i32> for u16 {
    open spec fn from_sample_spec(s: i32) -> u16 {
        conv_spec(s as int, SampleFmt::I32, SampleFmt::U16) as u16
    }

    fn from_sample_(s: i32) -> (r: u16) {
        i32_to_u16(s)
    }
}

impl FromSample<i32> for U24 {
    open spec fn from_sample_spec(s: i32) -> U24 {
        U24::spec_from_int(conv_spec(s as int, SampleFmt::I32, SampleFmt::U24))
    }

    fn from_sample_(s: i32) -> (r: U24) {
        let r = i32_to_u24(s);
        proof {
            lemma_u24_from_view(r, conv_spec(s as int, SampleFmt::I32, SampleFmt::U24));
        }
        r
    }
}

impl FromSample<i32> for u32 {
    open spec fn from_sample_spec(s: i32) -> u32 {
        conv_spec(s as int, SampleFmt::I32, SampleFmt::U32) as u32
    }

    fn from_sample_(s: i32) -> (r: u32) {
        i32_to_u32(s)
    }
}

impl FromSample<i32> for U48 {
    open spec fn from_sample_spec(s: i32) -> U48 {
        U48::spec_from_int(conv_spec(s as int, SampleFmt::I32, SampleFmt::U48))
    }

    fn from_sample_(s: i32) -> (r: U48) {
        let r = i32_to_u48(s);
        proof {
            lemma_u48_from_view(r, conv_spec(s as int, SampleFmt::I32, SampleFmt::U48));
        }
        r
    }
}

impl FromSample<i32> for u64 {
    open spec fn from_sample_spec(s: i32) -> u64 {
        conv_spec(s as int, SampleFmt::I32, SampleFmt::U64) as u64
    }

    fn from_sample_(s: i32) -> (r: u64) {
        i32_to_u64(s)
    }
}

impl FromSample<I48> for i8 {
    open spec fn from_sample_spec(s: I48) -> i8 {
        conv_spec(s@, SampleFmt::I48, SampleFmt::I8) as i8
    }

    fn from_sample_(s: I48) -> (r: i8) {
        i48_to_i8(s)
    }
}

impl FromSample<I48> for i16 {
    open spec fn from_sample_spec(s: I48) -> i16 {
        conv_spec(s@, SampleFmt::I48, SampleFmt::I16) as i16
    }

    fn from_sample_(s: I48) -> (r: i16) {
        i48_to_i16(s)
    }
}

impl FromSample<I48> for I24 {
    open spec fn from_sample_spec(s: I48) -> I24 {
        I24::spec_from_int(conv_spec(s@, SampleFmt::I48, SampleFmt::I24))
    }

    fn from_sample_(s: I48) -> (r: I24) {
        let r = i48_to_i24(s);
        proof {
            lemma_i24_from_view(r, conv_spec(s@, SampleFmt::I48, SampleFmt::I24));
        }
        r
    }
}

impl FromSample<I48> for i32 {
    open spec fn from_sample_spec(s: I48) -> i32 {
        conv_spec(s@, SampleFmt::I48, SampleFmt::I32) as i32
    }

    fn from_sample_(s: I48) -> (r: i32) {
        i48_to_i32(s)
    }
}

impl FromSample<I48> for i64 {
    open spec fn from_sample_spec(s: I48) -> i64 {
        conv_spec(s@, SampleFmt::I48, SampleFmt::I64) as i64
    }

    fn from_sample_(s: I48) -> (r: i64) {
        i48_to_i64(s)
    }
}

impl FromSample<I48> for u8 {
    open spec fn from_sample_spec(s: I48) -> u8 {
        conv_spec(s@, SampleFmt::I48, SampleFmt::U8) as u8
    }

    fn from_sample_(s: I48) -> (r: u8) {
        i48_to_u8(s)
    }
}

impl FromSample<I48> for u16 {
    open spec fn from_sample_spec(s: I48) -> u16 {
        conv_spec(s@, SampleFmt::I48, SampleFmt::U16) as u16
    }

    fn from_sample_(s: I48) -> (r: u16) {
        i48_to_u16(s)
    }
}

impl FromSample<I48> for U24 {
    open spec fn from_sample_spec(s: I48) -> U24 {
        U24::spec_from_int(conv_spec(s@, SampleFmt::I48, SampleFmt::U24))
    }

    fn from_sample_(s: I48) -> (r: U24) {
        let r = i48_to_u24(s);
        proof {
            lemma_u24_from_view(r, conv_spec(s@, SampleFmt::I48, SampleFmt::U24));
        }
        r
    }
}

impl FromSample<I48> for u32 {
    open spec fn from_sample_spec(s: I48) -> u32 {
        conv_spec(s@, SampleFmt::I48, SampleFmt::U32) as u32
    }

    fn from_sample_(s: I48) -> (r: u32) {
        i48_to_u32(s)
    }
}

impl FromSample<I48> for U48 {
    open spec fn from_sample_spec(s: I48) -> U48 {
        U48::spec_from_int(conv_spec(s@, SampleFmt::I48, SampleFmt::U48))
    }

    fn from_sample_(s: I48) -> (r: U48) {
        let r = i48_to_u48(s);
        proof {
            lemma_u48_from_view(r, conv_spec(s@, SampleFmt::I48, SampleFmt::U48));
        }
        r
    }
}

impl FromSample<I48> for u64 {
    open spec fn from_sample_spec(s: I48) -> u64 {
        conv_spec(s@, SampleFmt::I48, SampleFmt::U64) as u64
    }

    fn from_sample_(s: I48) -> (r: u64) {
        i48_to_u64(s)
    }
}

impl FromSample<i64> for i8 {
    open spec fn from_sample_spec(s: i64) -> i8 {
        conv_spec(s as int, SampleFmt::I64, SampleFmt::I8) as i8
    }

    fn from_sample_(s: i64) -> (r: i8) {
        i64_to_i8(s)
    }
}

impl FromSample<i64> for i16 {
    open spec fn from_sample_spec(s: i64) -> i16 {
        conv_spec(s as int, SampleFmt::I64, SampleFmt::I16) as i16
    }

    fn from_sample_(s: i64) -> (r: i16) {
        i64_to_i16(s)
    }
}

impl FromSample<i64> for I24 {
    open spec fn from_sample_spec(s: i64) -> I24 {
        I24::spec_from_int(conv_spec(s as int, SampleFmt::I64, SampleFmt::I24))
    }

    fn from_sample_(s: i64) -> (r: I24) {
        let r = i64_to_i24(s);
        proof {
            lemma_i24_from_view(r, conv_spec(s as int, SampleFmt::I64, SampleFmt::I24));
        }
        r
    }
}

impl FromSample<i64> for i32 {
    open spec fn from_sample_spec(s: i64) -> i32 {
        conv_spec(s as int, SampleFmt::I64, SampleFmt::I32) as i32
    }

    fn from_sample_(s: i64) -> (r: i32) {
        i64_to_i32(s)
    }
}

impl FromSample<i64> for I48 {
    open spec fn from_sample_spec(s: i64) -> I48 {
        I48::spec_from_int(conv_spec(s as int, SampleFmt::I64, SampleFmt::I48))
    }

    fn from_sample_(s: i64) -> (r: I48) {
        let r = i64_to_i48(s);
        proof {
            lemma_i48_from_view(r, conv_spec(s as int, SampleFmt::I64, SampleFmt::I48));
        }
        r
    }
}

impl FromSample<i64> for u8 {
    open spec fn from_sample_spec(s: i64) -> u8 {
        conv_spec(s as int, SampleFmt::I64, SampleFmt::U8) as u8
    }

    fn from_sample_(s: i64) -> (r: u8) {
        i64_to_u8(s)
    }
}

impl FromSample<i64> for u16 {
    open spec fn from_sample_spec(s: i64) -> u16 {
        conv_spec(s as int, SampleFmt::I64, SampleFmt::U16) as u16
    }

    fn from_sample_(s: i64) -> (r: u16) {
        i64_to_u16(s)
    }
}

impl FromSample<i64> for U24 {
    open spec fn from_sample_spec(s: i64) -> U24 {
        U24::spec_from_int(conv_spec(s as int, SampleFmt::I64, SampleFmt::U24))
    }

    fn from_sample_(s: i64) -> (r: U24) {
        let r = i64_to_u24(s);
        proof {
            lemma_u24_from_view(r, conv_spec(s as int, SampleFmt::I64, SampleFmt::U24));
        }
        r
    }
}

impl FromSample<i64> for u32 {
    open spec fn from_sample_spec(s: i64) -> u32 {
        conv_spec(s as int, SampleFmt::I64, SampleFmt::U32) as u32
    }

    fn from_sample_(s: i64) -> (r: u32) {
        i64_to_u32(s)
    }
}

impl FromSample<i64> for U48 {
    open spec fn from_sample_spec(s: i64) -> U48 {
        U48::spec_from_int(conv_spec(s as int, SampleFmt::I64, SampleFmt::U48))
    }

    fn from_sample_(s: i64) -> (r: U48) {
        let r = i64_to_u48(s);
        proof {
            lemma_u48_from_view(r, conv_spec(s as int, SampleFmt::I64, SampleFmt::U48));
        }
        r
    }
}

impl FromSample<i64> for u64 {
    open spec fn from_sample_spec(s: i64) -> u64 {
        conv_spec(s as int, SampleFmt::I64, SampleFmt::U64) as u64
    }

    fn from_sample_(s: i64) -> (r: u64) {
        i64_to_u64(s)
    }
}

impl FromSample<u8> for i8 {
    open spec fn from_sample_spec(s: u8) -> i8 {
        conv_spec(s as int, SampleFmt::U8, SampleFmt::I8) as i8
    }

    fn from_sample_(s: u8) -> (r: i8) {
        u8_to_i8(s)
    }
}

impl FromSample<u8> for i16 {
    open spec fn from_sample_spec(s: u8) -> i16 {
        conv_spec(s as int, SampleFmt::U8, SampleFmt::I16) as i16
    }

    fn from_sample_(s: u8) -> (r: i16) {
        u8_to_i16(s)
    }
}

impl FromSample<u8> for I24 {
    open spec fn from_sample_spec(s: u8) -> I24 {
        I24::spec_from_int(conv_spec(s as int, SampleFmt::U8, SampleFmt::I24))
    }

    fn from_sample_(s: u8) -> (r: I24) {
        let r = u8_to_i24(s);
        proof {
            lemma_i24_from_view(r, conv_spec(s as int, SampleFmt::U8, SampleFmt::I24));
        }
        r
    }
}

impl FromSample<u8> for i32 {
    open spec fn from_sample_spec(s: u8) -> i32 {
        conv_spec(s as int, SampleFmt::U8, SampleFmt::I32) as i32
    }

    fn from_sample_(s: u8) -> (r: i32) {
        u8_to_i32(s)
    }
}

impl FromSample<u8> for I48 {
    open spec fn from_sample_spec(s: u8) -> I48 {
        I48::spec_from_int(conv_spec(s as int, SampleFmt::U8, SampleFmt::I48))
    }

    fn from_sample_(s: u8) -> (r: I48) {
        let r = u8_to_i48(s);
        proof {
            lemma_i48_from_view(r, conv_spec(s as int, SampleFmt::U8, SampleFmt::I48));
        }
        r
    }
}

impl FromSample<u8> for i64 {
    open spec fn from_sample_spec(s: u8) -> i64 {
        conv_spec(s as int, SampleFmt::U8, SampleFmt::I64) as i64
    }

    fn from_sample_(s: u8) -> (r: i64) {
        u8_to_i64(s)
    }
}

impl FromSample<u8> for u16 {
    open spec fn from_sample_spec(s: u8) -> u16 {
        conv_spec(s as int, SampleFmt::U8, SampleFmt::U16) as u16
    }

    fn from_sample_(s: u8) -> (r: u16) {
        u8_to_u16(s)
    }
}

impl FromSample<u8> for U24 {
    open spec fn from_sample_spec(s: u8) -> U24 {
        U24::spec_from_int(conv_spec(s as int, SampleFmt::U8, SampleFmt::U24))
    }

    fn from_sample_(s: u8) -> (r: U24) {
        let r = u8_to_u24(s);
        proof {
            lemma_u24_from_view(r, conv_spec(s as int, SampleFmt::U8, SampleFmt::U24));
        }
        r
    }
}

impl FromSample<u8> for u32 {
    open spec fn from_sample_spec(s: u8) -> u32 {
        conv_spec(s as int, SampleFmt::U8, SampleFmt::U32) as u32
    }

    fn from_sample_(s: u8) -> (r: u32) {
        u8_to_u32(s)
    }
}

impl FromSample<u8> for U48 {
    open spec fn from_sample_spec(s: u8) -> U48 {
        U48::spec_from_int(conv_spec(s as int, SampleFmt::U8, SampleFmt::U48))
    }

    fn from_sample_(s: u8) -> (r: U48) {
        let r = u8_to_u48(s);
        proof {
            lemma_u48_from_view(r, conv_spec(s as int, SampleFmt::U8, SampleFmt::U48));
        }
        r
    }
}

impl FromSample<u8> for u64 {
    open spec fn from_sample_spec(s: u8) -> u64 {
        conv_spec(s as int, SampleFmt::U8, SampleFmt::U64) as u64
    }

    fn from_sample_(s: u8) -> (r: u64) {
        u8_to_u64(s)
    }
}

impl FromSample<u16> for i8 {
    open spec fn from_sample_spec(s: u16) -> i8 {
        conv_spec(s as int, SampleFmt::U16, SampleFmt::I8) as i8
    }

    fn from_sample_(s: u16) -> (r: i8) {
        u16_to_i8(s)
    }
}

impl FromSample<u16> for i16 {
    open spec fn from_sample_spec(s: u16) -> i16 {
        conv_spec(s as int, SampleFmt::U16, SampleFmt::I16) as i16
    }

    fn from_sample_(s: u16) -> (r: i16) {
        u16_to_i16(s)
    }
}

impl FromSample<u16> for I24 {
    open spec fn from_sample_spec(s: u16) -> I24 {
        I24::spec_from_int(conv_spec(s as int, SampleFmt::U16, SampleFmt::I24))
    }

    fn from_sample_(s: u16) -> (r: I24) {
        let r = u16_to_i24(s);
        proof {
            lemma_i24_from_view(r, conv_spec(s as int, SampleFmt::U16, SampleFmt::I24));
        }
        r
    }
}

impl FromSample<u16> for i32 {
    open spec fn from_sample_spec(s: u16) -> i32 {
        conv_spec(s as int, SampleFmt::U16, SampleFmt::I32) as i32
    }

    fn from_sample_(s: u16) -> (r: i32) {
        u16_to_i32(s)
    }
}

impl FromSample<u16> for I48 {
    open spec fn from_sample_spec(s: u16) -> I48 {
        I48::spec_from_int(conv_spec(s as int, SampleFmt::U16, SampleFmt::I48))
    }

    fn from_sample_(s: u16) -> (r: I48) {
        let r = u16_to_i48(s);
        proof {
            lemma_i48_from_view(r, conv_spec(s as int, SampleFmt::U16, SampleFmt::I48));
        }
        r
    }
}

impl FromSample<u16> for i64 {
    open spec fn from_sample_spec(s: u16) -> i64 {
        conv_spec(s as int, SampleFmt::U16, SampleFmt::I64) as i64
    }

    fn from_sample_(s: u16) -> (r: i64) {
        u16_to_i64(s)
    }
}

impl FromSample<u16> for u8 {
    open spec fn from_sample_spec(s: u16) -> u8 {
        conv_spec(s as int, SampleFmt::U16, SampleFmt::U8) as u8
    }

    fn from_sample_(s: u16) -> (r: u8) {
        u16_to_u8(s)
    }
}

impl FromSample<u16> for U24 {
    open spec fn from_sample_spec(s: u16) -> U24 {
        U24::spec_from_int(conv_spec(s as int, SampleFmt::U16, SampleFmt::U24))
    }

    fn from_sample_(s: u16) -> (r: U24) {
        let r = u16_to_u24(s);
        proof {
            lemma_u24_from_view(r, conv_spec(s as int, SampleFmt::U16, SampleFmt::U24));
        }
        r
    }
}

impl FromSample<u16> for u32 {
    open spec fn from_sample_spec(s: u16) -> u32 {
        conv_spec(s as int, SampleFmt::U16, SampleFmt::U32) as u32
    }

    fn from_sample_(s: u16) -> (r: u32) {
        u16_to_u32(s)
    }
}

impl FromSample<u16> for U48 {
    open spec fn from_sample_spec(s: u16) -> U48 {
        U48::spec_from_int(conv_spec(s as int, SampleFmt::U16, SampleFmt::U48))
    }

    fn from_sample_(s: u16) -> (r: U48) {
        let r = u16_to_u48(s);
        proof {
            lemma_u48_from_view(r, conv_spec(s as int, SampleFmt::U16, SampleFmt::U48));
        }
        r
    }
}

impl FromSample<u16> for u64 {
    open spec fn from_sample_spec(s: u16) -> u64 {
        conv_spec(s as int, SampleFmt::U16, SampleFmt::U64) as u64
    }

    fn from_sample_(s: u16) -> (r: u64) {
        u16_to_u64(s)
    }
}

impl FromSample<U24> for i8 {
    open spec fn from_sample_spec(s: U24) -> i8 {
        conv_spec(s@, SampleFmt::U24, SampleFmt::I8) as i8
    }

    fn from_sample_(s: U24) -> (r: i8) {
        u24_to_i8(s)
    }
}

impl FromSample<U24> for i16 {
    open spec fn from_sample_spec(s: U24) -> i16 {
        conv_spec(s@, SampleFmt::U24, SampleFmt::I16) as i16
    }

    fn from_sample_(s: U24) -> (r: i16) {
        u24_to_i16(s)
    }
}

impl FromSample<U24> for I24 {
    open spec fn from_sample_spec(s: U24) -> I24 {
        I24::spec_from_int(conv_spec(s@, SampleFmt::U24, SampleFmt::I24))
    }

    fn from_sample_(s: U24) -> (r: I24) {
        let r = u24_to_i24(s);
        proof {
            lemma_i24_from_view(r, conv_spec(s@, SampleFmt::U24, SampleFmt::I24));
        }
        r
    }
}

impl FromSample<U24> for i32 {
    open spec fn from_sample_spec(s: U24) -> i32 {
        conv_spec(s@, SampleFmt::U24, SampleFmt::I32) as i32
    }

    fn from_sample_(s: U24) -> (r: i32) {
        u24_to_i32(s)
    }
}

impl FromSample<U24> for I48 {
    open spec fn from_sample_spec(s: U24) -> I48 {
        I48::spec_from_int(conv_spec(s@, SampleFmt::U24, SampleFmt::I48))
    }

    fn from_sample_(s: U24) -> (r: I48) {
        let r = u24_to_i48(s);
        proof {
            lemma_i48_from_view(r, conv_spec(s@, SampleFmt::U24, SampleFmt::I48));
        }
        r
    }
}

impl FromSample<U24> for i64 {
    open spec fn from_sample_spec(s: U24) -> i64 {
        conv_spec(s@, SampleFmt::U24, SampleFmt::I64) as i64
    }

    fn from_sample_(s: U24) -> (r: i64) {
        u24_to_i64(s)
    }
}

impl FromSample<U24> for u8 {
    open spec fn from_sample_spec(s: U24) -> u8 {
        conv_spec(s@, SampleFmt::U24, SampleFmt::U8) as u8
    }

    fn from_sample_(s: U24) -> (r: u8) {
        u24_to_u8(s)
    }
}

impl FromSample<U24> for u16 {
    open spec fn from_sample_spec(s: U24) -> u16 {
        conv_spec(s@, SampleFmt::U24, SampleFmt::U16) as u16
    }

    fn from_sample_(s: U24) -> (r: u16) {
        u24_to_u16(s)
    }
}

impl FromSample<U24> for u32 {
    open spec fn from_sample_spec(s: U24) -> u32 {
        conv_spec(s@, SampleFmt::U24, SampleFmt::U32) as u32
    }

    fn from_sample_(s: U24) -> (r: u32) {
        u24_to_u32(s)
    }
}

impl FromSample<U24> for U48 {
    open spec fn from_sample_spec(s: U24) -> U48 {
        U48::spec_from_int(conv_spec(s@, SampleFmt::U24, SampleFmt::U48))
    }

    fn from_sample_(s: U24) -> (r: U48) {
        let r = u24_to_u48(s);
        proof {
            lemma_u48_from_view(r, conv_spec(s@, SampleFmt::U24, SampleFmt::U48));
        }
        r
    }
}

impl FromSample<U24> for u64 {
    open spec fn from_sample_spec(s: U24) -> u64 {
        conv_spec(s@, SampleFmt::U24, SampleFmt::U64) as u64
    }

    fn from_sample_(s: U24) -> (r: u64) {
        u24_to_u64(s)
    }
}

impl FromSample<u32> for i8 {
    open spec fn from_sample_spec(s: u32) -> i8 {
        conv_spec(s as int, SampleFmt::U32, SampleFmt::I8) as i8
    }

    fn from_sample_(s: u32) -> (r: i8) {
        u32_to_i8(s)
    }
}

impl FromSample<u32> for i16 {
    open spec fn from_sample_spec(s: u32) -> i16 {
        conv_spec(s as int, SampleFmt::U32, SampleFmt::I16) as i16
    }

    fn from_sample_(s: u32) -> (r: i16) {
        u32_to_i16(s)
    }
}

impl FromSample<u32> for I24 {
    open spec fn from_sample_spec(s: u32) -> I24 {
        I24::spec_from_int(conv_spec(s as int, SampleFmt::U32, SampleFmt::I24))
    }

    fn from_sample_(s: u32) -> (r: I24) {
        let r = u32_to_i24(s);
        proof {
            lemma_i24_from_view(r, conv_spec(s as int, SampleFmt::U32, SampleFmt::I24));
        }
        r
    }
}

impl FromSample<u32> for i32 {
    open spec fn from_sample_spec(s: u32) -> i32 {
        conv_spec(s as int, SampleFmt::U32, SampleFmt::I32) as i32
    }

    fn from_sample_(s: u32) -> (r: i32) {
        u32_to_i32(s)
    }
}

impl FromSample<u32> for I48 {
    open spec fn from_sample_spec(s: u32) -> I48 {
        I48::spec_from_int(conv_spec(s as int, SampleFmt::U32, SampleFmt::I48))
    }

    fn from_sample_(s: u32) -> (r: I48) {
        let r = u32_to_i48(s);
        proof {
            lemma_i48_from_view(r, conv_spec(s as int, SampleFmt::U32, SampleFmt::I48));
        }
        r
    }
}

impl FromSample<u32> for i64 {
    open spec fn from_sample_spec(s: u32) -> i64 {
        conv_spec(s as int, SampleFmt::U32, SampleFmt::I64) as i64
    }

    fn from_sample_(s: u32) -> (r: i64) {
        u32_to_i64(s)
    }
}

impl FromSample<u32> for u8 {
    open spec fn from_sample_spec(s: u32) -> u8 {
        conv_spec(s as int, SampleFmt::U32, SampleFmt::U8) as u8
    }

    fn from_sample_(s: u32) -> (r: u8) {
        u32_to_u8(s)
    }
}

impl FromSample<u32> for u16 {
    open spec fn from_sample_spec(s: u32) -> u16 {
        conv_spec(s as int, SampleFmt::U32, SampleFmt::U16) as u16
    }

    fn from_sample_(s: u32) -> (r: u16) {
        u32_to_u16(s)
    }
}

impl FromSample<u32> for U24 {
    open spec fn from_sample_spec(s: u32) -> U24 {
        U24::spec_from_int(conv_spec(s as int, SampleFmt::U32, SampleFmt::U24))
    }

    fn from_sample_(s: u32) -> (r: U24) {
        let r = u32_to_u24(s);
        proof {
            lemma_u24_from_view(r, conv_spec(s as int, SampleFmt::U32, SampleFmt::U24));
        }
        r
    }
}

impl FromSample<u32> for U48 {
    open spec fn from_sample_spec(s: u32) -> U48 {
        U48::spec_from_int(conv_spec(s as int, SampleFmt::U32, SampleFmt::U48))
    }

    fn from_sample_(s: u32) -> (r: U48) {
        let r = u32_to_u48(s);
        proof {
            lemma_u48_from_view(r, conv_spec(s as int, SampleFmt::U32, SampleFmt::U48));
        }
        r
    }
}

impl FromSample<u32> for u64 {
    open spec fn from_sample_spec(s: u32) -> u64 {
        conv_spec(s as int, SampleFmt::U32, SampleFmt::U64) as u64
    }

    fn from_sample_(s: u32) -> (r: u64) {
        u32_to_u64(s)
    }
}

impl FromSample<U48> for i8 {
    open spec fn from_sample_spec(s: U48) -> i8 {
        conv_spec(s@, SampleFmt::U48, SampleFmt::I8) as i8
    }

    fn from_sample_(s: U48) -> (r: i8) {
        u48_to_i8(s)
    }
}

impl FromSample<U48> for i16 {
    open spec fn from_sample_spec(s: U48) -> i16 {
        conv_spec(s@, SampleFmt::U48, SampleFmt::I16) as i16
    }

    fn from_sample_(s: U48) -> (r: i16) {
        u48_to_i16(s)
    }
}

impl FromSample<U48> for I24 {
    open spec fn from_sample_spec(s: U48) -> I24 {
        I24::spec_from_int(conv_spec(s@, SampleFmt::U48, SampleFmt::I24))
    }

    fn from_sample_(s: U48) -> (r: I24) {
        let r = u48_to_i24(s);
        proof {
            lemma_i24_from_view(r, conv_spec(s@, SampleFmt::U48, SampleFmt::I24));
        }
        r
    }
}

impl FromSample<U48> for i32 {
    open spec fn from_sample_spec(s: U48) -> i32 {
        conv_spec(s@, SampleFmt::U48, SampleFmt::I32) as i32
    }

    fn from_sample_(s: U48) -> (r: i32) {
        u48_to_i32(s)
    }
}

impl FromSample<U48> for I48 {
    open spec fn from_sample_spec(s: U48) -> I48 {
        I48::spec_from_int(conv_spec(s@, SampleFmt::U48, SampleFmt::I48))
    }

    fn from_sample_(s: U48) -> (r: I48) {
        let r = u48_to_i48(s);
        proof {
            lemma_i48_from_view(r, conv_spec(s@, SampleFmt::U48, SampleFmt::I48));
        }
        r
    }
}

impl FromSample<U48> for i64 {
    open spec fn from_sample_spec(s: U48) -> i64 {
        conv_spec(s@, SampleFmt::U48, SampleFmt::I64) as i64
    }

    fn from_sample_(s: U48) -> (r: i64) {
        u48_to_i64(s)
    }
}

impl FromSample<U48> for u8 {
    open spec fn from_sample_spec(s: U48) -> u8 {
        conv_spec(s@, SampleFmt::U48, SampleFmt::U8) as u8
    }

    fn from_sample_(s: U48) -> (r: u8) {
        u48_to_u8(s)
    }
}

impl FromSample<U48> for u16 {
    open spec fn from_sample_spec(s: U48) -> u16 {
        conv_spec(s@, SampleFmt::U48, SampleFmt::U16) as u16
    }

    fn from_sample_(s: U48) -> (r: u16) {
        u48_to_u16(s)
    }
}

impl FromSample<U48> for U24 {
    open spec fn from_sample_spec(s: U48) -> U24 {
        U24::spec_from_int(conv_spec(s@, SampleFmt::U48, SampleFmt::U24))
    }

    fn from_sample_(s: U48) -> (r: U24) {
        let r = u48_to_u24(s);
        proof {
            lemma_u24_from_view(r, conv_spec(s@, SampleFmt::U48, SampleFmt::U24));
        }
        r
    }
}

impl FromSample<U48> for u32 {
    open spec fn from_sample_spec(s: U48) -> u32 {
        conv_spec(s@, SampleFmt::U48, SampleFmt::U32) as u32
    }

    fn from_sample_(s: U48) -> (r: u32) {
        u48_to_u32(s)
    }
}

impl FromSample<U48> for u64 {
    open spec fn from_sample_spec(s: U48) -> u64 {
        conv_spec(s@, SampleFmt::U48, SampleFmt::U64) as u64
    }

    fn from_sample_(s: U48) -> (r: u64) {
        u48_to_u64(s)
    }
}

impl FromSample<u64> for i8 {
    open spec fn from_sample_spec(s: u64) -> i8 {
        conv_spec(s as int, SampleFmt::U64, SampleFmt::I8) as i8
    }

    fn from_sample_(s: u64) -> (r: i8) {
        u64_to_i8(s)
    }
}

impl FromSample<u64> for i16 {
    open spec fn from_sample_spec(s: u64) -> i16 {
        conv_spec(s as int, SampleFmt::U64, SampleFmt::I16) as i16
    }

    fn from_sample_(s: u64) -> (r: i16) {
        u64_to_i16(s)
    }
}

impl FromSample<u64> for I24 {
    open spec fn from_sample_spec(s: u64) -> I24 {
        I24::spec_from_int(conv_spec(s as int, SampleFmt::U64, SampleFmt::I24))
    }

    fn from_sample_(s: u64) -> (r: I24) {
        let r = u64_to_i24(s);
        proof {
            lemma_i24_from_view(r, conv_spec(s as int, SampleFmt::U64, SampleFmt::I24));
        }
        r
    }
}

impl FromSample<u64> for i32 {
    open spec fn from_sample_spec(s: u64) -> i32 {
        conv_spec(s as int, SampleFmt::U64, SampleFmt::I32) as i32
    }

    fn from_sample_(s: u64) -> (r: i32) {
        u64_to_i32(s)
    }
}

impl FromSample<u64> for I48 {
    open spec fn from_sample_spec(s: u64) -> I48 {
        I48::spec_from_int(conv_spec(s as int, SampleFmt::U64, SampleFmt::I48))
    }

    fn from_sample_(s: u64) -> (r: I48) {
        let r = u64_to_i48(s);
        proof {
            lemma_i48_from_view(r, conv_spec(s as int, SampleFmt::U64, SampleFmt::I48));
        }
        r
    }
}

impl FromSample<u64> for i64 {
    open spec fn from_sample_spec(s: u64) -> i64 {
        conv_spec(s as int, SampleFmt::U64, SampleFmt::I64) as i64
    }

    fn from_sample_(s: u64) -> (r: i64) {
        u64_to_i64(s)
    }
}

impl FromSample<u64> for u8 {
    open spec fn from_sample_spec(s: u64) -> u8 {
        conv_spec(s as int, SampleFmt::U64, SampleFmt::U8) as u8
    }

    fn from_sample_(s: u64) -> (r: u8) {
        u64_to_u8(s)
    }
}

impl FromSample<u64> for u16 {
    open spec fn from_sample_spec(s: u64) -> u16 {
        conv_spec(s as int, SampleFmt::U64, SampleFmt::U16) as u16
    }

    fn from_sample_(s: u64) -> (r: u16) {
        u64_to_u16(s)
    }
}

impl FromSample<u64> for U24 {
    open spec fn from_sample_spec(s: u64) -> U24 {
        U24::spec_from_int(conv_spec(s as int, SampleFmt::U64, SampleFmt::U24))
    }

    fn from_sample_(s: u64) -> (r: U24) {
        let r = u64_to_u24(s);
        proof {
            lemma_u24_from_view(r, conv_spec(s as int, SampleFmt::U64, SampleFmt::U24));
        }
        r
    }
}

impl FromSample<u64> for u32 {
    open spec fn from_sample_spec(s: u64) -> u32 {
        conv_spec(s as int, SampleFmt::U64, SampleFmt::U32) as u32
    }

    fn from_sample_(s: u64) -> (r: u32) {
        u64_to_u32(s)
    }
}

impl FromSample<u64> for U48 {
    open spec fn from_sample_spec(s: u64) -> U48 {
        U48::spec_from_int(conv_spec(s as int, SampleFmt::U64, SampleFmt::U48))
    }

    fn from_sample_(s: u64) -> (r: U48) {
        let r = u64_to_u48(s);
        proof {
            lemma_u48_from_view(r, conv_spec(s as int, SampleFmt::U64, SampleFmt::U48));
        }
        r
    }
}

/// A sample type that can convert itself into a sample of type `S`.
///
/// Blanket-implemented for every pair that [`FromSample`] covers, so
/// `value.to_sample_()` is available wherever `S::from_sample_(value)`
/// is, with the same contract.
pub trait ToSample<S>: Sized {
    /// The sample of type `S` that this sample converts to.
    spec fn to_sample_spec(self) -> S;

    /// Converts `self` into a sample of type `S`.
    fn to_sample_(self) -> (r: S)
        ensures
            r == self.to_sample_spec(),
    ;
}

impl<T, U: FromSample<T>> ToSample<U> for T {
    /// Converting to `U` is `U`'s conversion from `T`.
    open spec fn to_sample_spec(self) -> U {
        U::from_sample_spec(self)
    }

    fn to_sample_(self) -> (r: U) {
        U::from_sample_(self)
    }
}

/// Sample types which may be converted both to and from some type `S`.
pub trait Duplex<S>: FromSample<S> + ToSample<S> {

}

impl<S, T: FromSample<S> + ToSample<S>> Duplex<S> for T {

}

} // verus!
