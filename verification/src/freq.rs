//! Frequency values.
//!
//! A [`Hertz`] holds a frequency as a whole number of ten-thousandths of
//! a hertz, the resolution the engine cares about for musical use.  Two
//! frequencies within 0.0001 Hz of each other compare equal, so
//! near-identical frequencies collapse to one lookup-table cache entry;
//! this is a deliberate trade between cache hit rate and exactness.

use vstd::prelude::*;

verus! {

/// Number of [`Hertz`] units in one hertz.
pub const UNITS_PER_HERTZ: i64 = 10_000;

/// Largest frequency the engine represents, in units of 0.0001 Hz.
/// Keeping a wide margin below `i64::MAX` lets differences of two
/// frequencies be computed without overflow.
pub const HERTZ_MAX_UNITS: i64 = 4_611_686_018_427_387_903;

/// Largest whole number of hertz accepted by [`Hertz::from_hertz`].
pub const HERTZ_MAX_WHOLE: i64 = 461_168_601_842_738;

/// Frequency in hertz with a resolution of 0.0001 Hz.
#[derive(Debug, Clone, Copy, Hash)]
pub struct Hertz {
    units: i64,
}

/// The frequency type under its older name.
pub type Frequency = Hertz;

impl View for Hertz {
    type V = int;

    closed spec fn view(&self) -> int {
        self.units as int
    }
}

impl Hertz {
    /// The type invariant: the unit count is non-negative and leaves
    /// headroom for difference arithmetic.
    #[verifier::type_invariant]
    pub closed spec fn wf(self) -> bool {
        0 <= self.units <= HERTZ_MAX_UNITS
    }

    /// Builds a frequency from a whole number of hertz.
    pub fn from_hertz(value: i64) -> (r: Self)
        requires
            0 <= value <= HERTZ_MAX_WHOLE,
        ensures
            r@ == value * UNITS_PER_HERTZ,
    {
        Hertz { units: value * UNITS_PER_HERTZ }
    }

    /// Builds a frequency from a count of 0.0001 Hz units.
    pub fn from_ten_thousandths(units: i64) -> (r: Self)
        requires
            0 <= units <= HERTZ_MAX_UNITS,
        ensures
            r@ == units,
    {
        Hertz { units }
    }

    /// Returns the frequency as a whole number of hertz, dropping any
    /// fraction of a hertz.
    pub fn hertz(&self) -> (r: i64)
        ensures
            r == self@ / (UNITS_PER_HERTZ as int),
    {
        proof {
            use_type_invariant(self);
        }
        self.units / UNITS_PER_HERTZ
    }

    /// Returns the frequency as a count of 0.0001 Hz units.
    pub fn ten_thousandths(&self) -> (r: i64)
        ensures
            r == self@,
            0 <= r <= HERTZ_MAX_UNITS,
    {
        proof {
            use_type_invariant(self);
        }
        self.units
    }

    /// Whether two frequencies are within the engine's 0.0001 Hz
    /// resolution of each other; this is what `==` means on [`Hertz`].
    pub open spec fn eq_within_resolution(self, other: Hertz) -> bool {
        -1 <= self@ - other@ <= 1
    }
}

impl PartialEq for Hertz {
    /// Frequencies within one 0.0001 Hz unit of each other are equal.
    fn eq(&self, other: &Self) -> (r: bool) {
        proof {
            use_type_invariant(self);
            use_type_invariant(other);
        }
        let d: i64 = if self.units >= other.units {
            self.units - other.units
        } else {
            other.units - self.units
        };
        d <= 1
    }
}

impl vstd::std_specs::cmp::PartialEqSpecImpl for Hertz {
    open spec fn obeys_eq_spec() -> bool {
        true
    }

    open spec fn eq_spec(&self, other: &Hertz) -> bool {
        self.eq_within_resolution(*other)
    }
}

impl Eq for Hertz {

}

} // verus!
