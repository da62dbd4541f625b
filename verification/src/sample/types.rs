//! Narrow integer sample formats.
//!
//! The 24-bit and 48-bit sample formats have no native Rust integer, so
//! each is a wrapper around the next wider native integer that keeps its
//! value inside the narrow format's range.  The wrapper exposes the raw
//! value through [`I24::inner`] and friends; the range bound is a type
//! invariant, so a value of one of these types is always in range.

use vstd::prelude::*;

verus! {

/// Smallest value representable in a signed 24-bit sample.
pub const I24_MIN: i32 = -8_388_608;
/// Largest value representable in a signed 24-bit sample.
pub const I24_MAX: i32 = 8_388_607;
/// Largest value representable in an unsigned 24-bit sample.
pub const U24_MAX: i32 = 16_777_215;
/// Smallest value representable in a signed 48-bit sample.
pub const I48_MIN: i64 = -140_737_488_355_328;
/// Largest value representable in a signed 48-bit sample.
pub const I48_MAX: i64 = 140_737_488_355_327;
/// Largest value representable in an unsigned 48-bit sample.
pub const U48_MAX: i64 = 281_474_976_710_655;

/// A signed 24-bit sample stored right-justified in an `i32`.
#[derive(Debug, Clone, Copy, Hash, PartialEq, Eq, Structural)]
pub struct I24 {
    v: i32,
}

/// An unsigned 24-bit sample stored right-justified in an `i32`.
#[derive(Debug, Clone, Copy, Hash, PartialEq, Eq, Structural)]
pub struct U24 {
    v: i32,
}

/// A signed 48-bit sample stored right-justified in an `i64`.
#[derive(Debug, Clone, Copy, Hash, PartialEq, Eq, Structural)]
pub struct I48 {
    v: i64,
}

/// An unsigned 48-bit sample stored right-justified in an `i64`.
#[derive(Debug, Clone, Copy, Hash, PartialEq, Eq, Structural)]
pub struct U48 {
    v: i64,
}

impl View for I24 {
    type V = int;

    closed spec fn view(&self) -> int {
        self.v as int
    }
}

impl I24 {
    /// The sample whose raw value is `v`.
    pub closed spec fn spec_from_int(v: int) -> I24 {
        I24 { v: v as i32 }
    }

    /// The type invariant: the raw value stays in the 24-bit signed range.
    #[verifier::type_invariant]
    pub closed spec fn wf(self) -> bool {
        I24_MIN <= self.v <= I24_MAX
    }

    /// Wraps a raw value the caller has already validated.
    pub fn new_unchecked(v: i32) -> (r: Self)
        requires
            I24_MIN <= v <= I24_MAX,
        ensures
            r@ == v as int,
    {
        I24 { v }
    }

    /// Returns the raw value of the sample.
    pub fn inner(self) -> (r: i32)
        ensures
            r as int == self@,
            I24_MIN <= r <= I24_MAX,
    {
        proof {
            use_type_invariant(&self);
        }
        self.v
    }
}

impl View for U24 {
    type V = int;

    closed spec fn view(&self) -> int {
        self.v as int
    }
}

impl U24 {
    /// The sample whose raw value is `v`.
    pub closed spec fn spec_from_int(v: int) -> U24 {
        U24 { v: v as i32 }
    }

    /// The type invariant: the raw value stays in the 24-bit unsigned range.
    #[verifier::type_invariant]
    pub closed spec fn wf(self) -> bool {
        0 <= self.v <= U24_MAX
    }

    /// Wraps a raw value the caller has already validated.
    pub fn new_unchecked(v: i32) -> (r: Self)
        requires
            0 <= v <= U24_MAX,
        ensures
            r@ == v as int,
    {
        U24 { v }
    }

    /// Returns the raw value of the sample.
    pub fn inner(self) -> (r: i32)
        ensures
            r as int == self@,
            0 <= r <= U24_MAX,
    {
        proof {
            use_type_invariant(&self);
        }
        self.v
    }
}

impl View for I48 {
    type V = int;

    closed spec fn view(&self) -> int {
        self.v as int
    }
}

impl I48 {
    /// The sample whose raw value is `v`.
    pub closed spec fn spec_from_int(v: int) -> I48 {
        I48 { v: v as i64 }
    }

    /// The type invariant: the raw value stays in the 48-bit signed range.
    #[verifier::type_invariant]
    pub closed spec fn wf(self) -> bool {
        I48_MIN <= self.v <= I48_MAX
    }

    /// Wraps a raw value the caller has already validated.
    pub fn new_unchecked(v: i64) -> (r: Self)
        requires
            I48_MIN <= v <= I48_MAX,
        ensures
            r@ == v as int,
    {
        I48 { v }
    }

    /// Returns the raw value of the sample.
    pub fn inner(self) -> (r: i64)
        ensures
            r as int == self@,
            I48_MIN <= r <= I48_MAX,
    {
        proof {
            use_type_invariant(&self);
        }
        self.v
    }
}

impl View for U48 {
    type V = int;

    closed spec fn view(&self) -> int {
        self.v as int
    }
}

impl U48 {
    /// The sample whose raw value is `v`.
    pub closed spec fn spec_from_int(v: int) -> U48 {
        U48 { v: v as i64 }
    }

    /// The type invariant: the raw value stays in the 48-bit unsigned range.
    #[verifier::type_invariant]
    pub closed spec fn wf(self) -> bool {
        0 <= self.v <= U48_MAX
    }

    /// Wraps a raw value the caller has already validated.
    pub fn new_unchecked(v: i64) -> (r: Self)
        requires
            0 <= v <= U48_MAX,
        ensures
            r@ == v as int,
    {
        U48 { v }
    }

    /// Returns the raw value of the sample.
    pub fn inner(self) -> (r: i64)
        ensures
            r as int == self@,
            0 <= r <= U48_MAX,
    {
        proof {
            use_type_invariant(&self);
        }
        self.v
    }
}

/// A sample of one of the wrapper formats is determined by its value:
/// whatever holds a given raw value is `spec_from_int` of that value.
pub proof fn lemma_i24_from_view(a: I24, v: int)
    requires
        a@ == v,
    ensures
        a == I24::spec_from_int(v),
{
}

/// A sample of one of the wrapper formats is determined by its value.
pub proof fn lemma_u24_from_view(a: U24, v: int)
    requires
        a@ == v,
    ensures
        a == U24::spec_from_int(v),
{
}

/// A sample of one of the wrapper formats is determined by its value.
pub proof fn lemma_i48_from_view(a: I48, v: int)
    requires
        a@ == v,
    ensures
        a == I48::spec_from_int(v),
{
}

/// A sample of one of the wrapper formats is determined by its value.
pub proof fn lemma_u48_from_view(a: U48, v: int)
    requires
        a@ == v,
    ensures
        a == U48::spec_from_int(v),
{
}

} // verus!
