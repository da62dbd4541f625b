//! Proved laws of the conversion engine.
//!
//! The laws are stated over [`conv_spec`], the mathematical model that
//! every executable conversion in [`crate::sample::conv`] is proved to
//! compute, so each law carries over to the corresponding chain of
//! executable conversions.

use vstd::prelude::*;
use vstd::arithmetic::power2::{pow2, lemma_pow2_adds, lemma_pow2_pos, lemma2_to64};
use vstd::arithmetic::div_mod::{
    lemma_div_is_ordered, lemma_div_multiples_vanish, lemma_div_multiples_vanish_fancy,
};
use vstd::arithmetic::mul::lemma_mul_inequality;
use crate::sample::fmt::{
    SampleFmt, conv_spec, fmt_bits, fmt_half, fmt_hi, fmt_lo, fmt_mid, in_fmt, lemma_half_is_pow2,
};

verus! {

/// A conversion never leaves the target format's range: converting a
/// representable sample of format `a` yields a representable sample of
/// format `b`.
pub proof fn lemma_conv_in_range(v: int, a: SampleFmt, b: SampleFmt)
    requires
        in_fmt(v, a),
    ensures
        in_fmt(conv_spec(v, a, b), b),
{
    let c = v - fmt_mid(a);
    lemma_half_is_pow2(a);
    lemma_half_is_pow2(b);
    if fmt_bits(b) >= fmt_bits(a) {
        let d: nat = (fmt_bits(b) - fmt_bits(a)) as nat;
        let k = pow2(d) as int;
        lemma_pow2_pos(d);
        lemma_pow2_adds((fmt_bits(a) - 1) as nat, d);
        assert(fmt_half(a) * k == fmt_half(b));
        lemma_mul_inequality(-fmt_half(a), c, k);
        assert(-fmt_half(a) * k == -(fmt_half(a) * k)) by (nonlinear_arith);
        lemma_mul_inequality(c, fmt_half(a) - 1, k);
        assert((fmt_half(a) - 1) * k == fmt_half(a) * k - k) by (nonlinear_arith);
    } else {
        let d: nat = (fmt_bits(a) - fmt_bits(b)) as nat;
        let k = pow2(d) as int;
        lemma_pow2_pos(d);
        lemma_pow2_adds((fmt_bits(b) - 1) as nat, d);
        assert(fmt_half(b) * k == fmt_half(a));
        // lower bound: -half(a) <= c, so -half(b) = (-half(a))/k <= c/k
        lemma_div_is_ordered(-fmt_half(a), c, k);
        lemma_div_multiples_vanish(-fmt_half(b), k);
        assert(k * -fmt_half(b) == -(fmt_half(b) * k)) by (nonlinear_arith);
        assert((-fmt_half(a)) / k == -fmt_half(b));
        // upper bound: c <= half(a) - 1, so c/k <= (half(a) - 1)/k == half(b) - 1
        lemma_div_is_ordered(c, fmt_half(a) - 1, k);
        lemma_div_multiples_vanish_fancy(fmt_half(b) - 1, k - 1, k);
        assert(k * (fmt_half(b) - 1) + (k - 1) == fmt_half(b) * k - 1) by (nonlinear_arith);
        assert((fmt_half(a) - 1) / k == fmt_half(b) - 1);
    }
}

/// Round trip: converting a sample to an equal or wider format and back
/// returns the original sample unchanged, for every representable value.
pub proof fn lemma_widen_roundtrip(v: int, a: SampleFmt, b: SampleFmt)
    requires
        in_fmt(v, a),
        fmt_bits(b) >= fmt_bits(a),
    ensures
        conv_spec(conv_spec(v, a, b), b, a) == v,
{
    let d: nat = (fmt_bits(b) - fmt_bits(a)) as nat;
    let k = pow2(d) as int;
    lemma_pow2_pos(d);
    let c = v - fmt_mid(a);
    assert(conv_spec(v, a, b) == c * k + fmt_mid(b));
    if fmt_bits(b) == fmt_bits(a) {
        assert(k == 1) by {
            lemma2_to64();
        }
        assert(c * 1 == c);
        assert(conv_spec(conv_spec(v, a, b), b, a) == (c * k) * k + fmt_mid(a));
    } else {
        lemma_div_multiples_vanish(c, k);
        assert(c * k == k * c) by (nonlinear_arith);
        assert((c * k) / k == c);
        assert(conv_spec(conv_spec(v, a, b), b, a) == (c * k) / k + fmt_mid(a));
    }
}

/// Narrowing is idempotent: once a sample has been narrowed, widening it
/// back and narrowing it again gives the same narrow sample, for every
/// representable value of the wide format.
pub proof fn lemma_narrow_idempotent(v: int, a: SampleFmt, b: SampleFmt)
    requires
        in_fmt(v, a),
        fmt_bits(b) < fmt_bits(a),
    ensures
        conv_spec(conv_spec(conv_spec(v, a, b), b, a), a, b) == conv_spec(v, a, b),
{
    let w = conv_spec(v, a, b);
    lemma_conv_in_range(v, a, b);
    lemma_widen_roundtrip(w, b, a);
}

/// Boundary values: the smallest representable sample of one format maps
/// exactly to the smallest representable sample of any other format.
pub proof fn lemma_min_to_min(a: SampleFmt, b: SampleFmt)
    ensures
        conv_spec(fmt_lo(a), a, b) == fmt_lo(b),
{
    lemma_half_is_pow2(a);
    lemma_half_is_pow2(b);
    if fmt_bits(b) >= fmt_bits(a) {
        let d: nat = (fmt_bits(b) - fmt_bits(a)) as nat;
        let k = pow2(d) as int;
        lemma_pow2_pos(d);
        lemma_pow2_adds((fmt_bits(a) - 1) as nat, d);
        assert(fmt_half(a) * k == fmt_half(b));
        assert(-fmt_half(a) * k == -(fmt_half(a) * k)) by (nonlinear_arith);
    } else {
        let d: nat = (fmt_bits(a) - fmt_bits(b)) as nat;
        let k = pow2(d) as int;
        lemma_pow2_pos(d);
        lemma_pow2_adds((fmt_bits(b) - 1) as nat, d);
        assert(fmt_half(b) * k == fmt_half(a));
        lemma_div_multiples_vanish(-fmt_half(b), k);
        assert(k * -fmt_half(b) == -(fmt_half(b) * k)) by (nonlinear_arith);
        assert((-fmt_half(a)) / k == -fmt_half(b));
    }
}

/// Boundary values: silence maps to silence.  The midpoint of one format
/// (zero for signed formats, half the range for unsigned ones) maps
/// exactly to the midpoint of any other format.
pub proof fn lemma_silence_to_silence(a: SampleFmt, b: SampleFmt)
    ensures
        conv_spec(fmt_mid(a), a, b) == fmt_mid(b),
{
    if fmt_bits(b) >= fmt_bits(a) {
        let d: nat = (fmt_bits(b) - fmt_bits(a)) as nat;
        let k = pow2(d) as int;
        assert(0int * k == 0) by (nonlinear_arith);
    } else {
        let d: nat = (fmt_bits(a) - fmt_bits(b)) as nat;
        let k = pow2(d) as int;
        lemma_pow2_pos(d);
        lemma_div_multiples_vanish(0, k);
        assert(k * 0 == 0) by (nonlinear_arith);
        assert(0int / k == 0);
    }
}

/// Boundary values: a narrowing conversion maps the largest representable
/// sample of the wide format exactly to the largest representable sample
/// of the narrow format.
pub proof fn lemma_narrow_max_to_max(a: SampleFmt, b: SampleFmt)
    requires
        fmt_bits(b) <= fmt_bits(a),
    ensures
        conv_spec(fmt_hi(a), a, b) == fmt_hi(b),
{
    let d: nat = (fmt_bits(a) - fmt_bits(b)) as nat;
    let k = pow2(d) as int;
    lemma_pow2_pos(d);
    lemma_half_is_pow2(a);
    lemma_half_is_pow2(b);
    if fmt_bits(b) == fmt_bits(a) {
        assert(k == 1) by {
            lemma2_to64();
        }
        assert((fmt_half(a) - 1) * 1 == fmt_half(a) - 1);
    } else {
        lemma_pow2_adds((fmt_bits(b) - 1) as nat, d);
        assert(fmt_half(b) * k == fmt_half(a));
        lemma_div_multiples_vanish_fancy(fmt_half(b) - 1, k - 1, k);
        assert(k * (fmt_half(b) - 1) + (k - 1) == fmt_half(b) * k - 1) by (nonlinear_arith);
        assert((fmt_half(a) - 1) / k == fmt_half(b) - 1);
    }
}

} // verus!
