//! The mathematical model of the sample formats.
//!
//! Every conversion between two fixed-point formats is an affine map: the
//! value is first centred around the format's midpoint (zero for signed
//! formats, half the range for unsigned ones), then scaled by a power of
//! two — multiplied when widening, divided (flooring) when narrowing — and
//! finally re-biased to the target format's midpoint.  [`conv_spec`] is
//! that map; every executable conversion in [`crate::sample::conv`] is
//! specified to compute exactly `conv_spec` of its argument.

use vstd::prelude::*;
use vstd::arithmetic::power2::{pow2, lemma_pow2_adds, lemma_pow2_pos, lemma2_to64, lemma2_to64_rest};
use vstd::arithmetic::div_mod::lemma_hoist_over_denominator;

verus! {

/// One of the twelve fixed-point sample formats.
pub enum SampleFmt {
    I8,
    I16,
    I24,
    I32,
    I48,
    I64,
    U8,
    U16,
    U24,
    U32,
    U48,
    U64,
}

/// Width of the format in bits.
pub open spec fn fmt_bits(f: SampleFmt) -> nat {
    match f {
        SampleFmt::I8 => 8,
        SampleFmt::I16 => 16,
        SampleFmt::I24 => 24,
        SampleFmt::I32 => 32,
        SampleFmt::I48 => 48,
        SampleFmt::I64 => 64,
        SampleFmt::U8 => 8,
        SampleFmt::U16 => 16,
        SampleFmt::U24 => 24,
        SampleFmt::U32 => 32,
        SampleFmt::U48 => 48,
        SampleFmt::U64 => 64,
    }
}

/// Whether the format is signed.
pub open spec fn fmt_signed(f: SampleFmt) -> bool {
    match f {
        SampleFmt::I8 => true,
        SampleFmt::I16 => true,
        SampleFmt::I24 => true,
        SampleFmt::I32 => true,
        SampleFmt::I48 => true,
        SampleFmt::I64 => true,
        SampleFmt::U8 => false,
        SampleFmt::U16 => false,
        SampleFmt::U24 => false,
        SampleFmt::U32 => false,
        SampleFmt::U48 => false,
        SampleFmt::U64 => false,
    }
}

/// Half the size of the format's range: `2^(bits - 1)`.
pub open spec fn fmt_half(f: SampleFmt) -> int {
    match f {
        SampleFmt::I8 => 0x80,
        SampleFmt::I16 => 0x8000,
        SampleFmt::I24 => 0x80_0000,
        SampleFmt::I32 => 0x8000_0000,
        SampleFmt::I48 => 0x8000_0000_0000,
        SampleFmt::I64 => 0x8000_0000_0000_0000,
        SampleFmt::U8 => 0x80,
        SampleFmt::U16 => 0x8000,
        SampleFmt::U24 => 0x80_0000,
        SampleFmt::U32 => 0x8000_0000,
        SampleFmt::U48 => 0x8000_0000_0000,
        SampleFmt::U64 => 0x8000_0000_0000_0000,
    }
}

/// Half the format's range is two to the power of one less than its
/// width.
pub proof fn lemma_half_is_pow2(f: SampleFmt)
    ensures
        fmt_half(f) == pow2((fmt_bits(f) - 1) as nat) as int,
{
    lemma2_to64();
    lemma2_to64_rest();
}

/// The format's midpoint, the value that represents silence: zero for a
/// signed format, half the range for an unsigned one.
pub open spec fn fmt_mid(f: SampleFmt) -> int {
    if fmt_signed(f) {
        0
    } else {
        fmt_half(f)
    }
}

/// Smallest representable value of the format.
pub open spec fn fmt_lo(f: SampleFmt) -> int {
    fmt_mid(f) - fmt_half(f)
}

/// Largest representable value of the format.
pub open spec fn fmt_hi(f: SampleFmt) -> int {
    fmt_mid(f) + fmt_half(f) - 1
}

/// Whether `v` is representable in format `f`.
pub open spec fn in_fmt(v: int, f: SampleFmt) -> bool {
    fmt_lo(f) <= v <= fmt_hi(f)
}

/// The value a sample `v` of format `a` converts to in format `b`:
/// centre, scale by the width difference, re-bias.  Narrowing divides
/// flooring (Euclidean division by a positive power of two), so the
/// low-order bits are truncated, as the engine documents.
pub open spec fn conv_spec(v: int, a: SampleFmt, b: SampleFmt) -> int {
    let c = v - fmt_mid(a);
    let s = if fmt_bits(b) >= fmt_bits(a) {
        c * (pow2((fmt_bits(b) - fmt_bits(a)) as nat) as int)
    } else {
        c / (pow2((fmt_bits(a) - fmt_bits(b)) as nat) as int)
    };
    s + fmt_mid(b)
}

/// `conv_spec` rewritten over the bias against the format's minimum
/// rather than its midpoint.  The executable conversions compute in this
/// form — offset to non-negative, scale, offset back — because it never
/// leaves the unsigned domain.
pub(crate) proof fn lemma_conv_biased(v: int, a: SampleFmt, b: SampleFmt)
    ensures
        fmt_bits(b) >= fmt_bits(a) ==> conv_spec(v, a, b) == (v - fmt_lo(a)) * (pow2(
            (fmt_bits(b) - fmt_bits(a)) as nat,
        ) as int) + fmt_lo(b),
        fmt_bits(b) < fmt_bits(a) ==> conv_spec(v, a, b) == (v - fmt_lo(a)) / (pow2(
            (fmt_bits(a) - fmt_bits(b)) as nat,
        ) as int) + fmt_lo(b),
{
    let c = v - fmt_mid(a);
    lemma_half_is_pow2(a);
    lemma_half_is_pow2(b);
    if fmt_bits(b) >= fmt_bits(a) {
        let d: nat = (fmt_bits(b) - fmt_bits(a)) as nat;
        let k = pow2(d) as int;
        lemma_pow2_adds((fmt_bits(a) - 1) as nat, d);
        assert(fmt_half(a) * k == fmt_half(b));
        assert((c + fmt_half(a)) * k == c * k + fmt_half(a) * k) by (nonlinear_arith);
        assert(v - fmt_lo(a) == c + fmt_half(a));
    } else {
        let d: nat = (fmt_bits(a) - fmt_bits(b)) as nat;
        let k = pow2(d) as int;
        lemma_pow2_pos(d);
        lemma_pow2_adds((fmt_bits(b) - 1) as nat, d);
        assert(fmt_half(b) * k == fmt_half(a)) by {
            assert(pow2((fmt_bits(b) - 1) as nat) * pow2(d) == pow2((fmt_bits(b) - 1) as nat + d));
        }
        lemma_hoist_over_denominator(c, fmt_half(b), pow2(d));
        assert(c / k + fmt_half(b) == (c + fmt_half(b) * k) / k);
        assert((v - fmt_lo(a)) / k == c / k + fmt_half(b));
    }
}

} // verus!
