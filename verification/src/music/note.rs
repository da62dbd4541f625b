//! The [`Note`] type: a named pitch with an octave.

use vstd::prelude::*;
use vstd::arithmetic::power2::pow2;
use crate::freq::Hertz;
use crate::music::named_pitch::NamedPitch;
use crate::music::octave::Octave;
use crate::music::pitch::Pitch;

verus! {

/// A note: a pitch, as written, with an octave.
///
/// Keeping the written spelling allows octave changes across an
/// interval from one note to another to be attributed correctly.
#[derive(PartialEq, Eq, Copy, Clone, Hash, Debug, Structural)]
pub struct Note {
    named_pitch: NamedPitch,
    octave: Octave,
}

impl Note {
    /// The note's written spelling.
    pub closed spec fn named_pitch_spec(self) -> NamedPitch {
        self.named_pitch
    }

    /// The note's written octave.
    pub closed spec fn octave_spec(self) -> Octave {
        self.octave
    }

    /// The note's frequency in 0.0001 Hz units: the base frequency of
    /// its pitch class raised by its octave, after the spelling's
    /// octave adjustment.
    pub open spec fn frequency_units_spec(self) -> int {
        let oct = self.octave_spec().number_spec() + self.named_pitch_spec().octave_adjustment_spec();
        self.named_pitch_spec().pitch_spec().base_frequency_units_spec() * (pow2(oct as nat) as int)
    }

    /// Constructs the note with the given written pitch and octave.
    pub fn new(named_pitch: NamedPitch, octave: Octave) -> (r: Note)
        ensures
            r.named_pitch_spec() == named_pitch,
            r.octave_spec() == octave,
    {
        Note { named_pitch, octave }
    }

    /// Returns the written spelling of the note.
    pub fn named_pitch(&self) -> (r: NamedPitch)
        ensures
            r == self.named_pitch_spec(),
    {
        self.named_pitch
    }

    /// Returns the octave of the note.
    pub fn octave(&self) -> (r: Octave)
        ensures
            r == self.octave_spec(),
    {
        self.octave
    }

    /// Returns the pitch of the note.
    pub fn pitch(&self) -> (r: Pitch)
        ensures
            r == self.named_pitch_spec().pitch_spec(),
    {
        self.named_pitch.pitch()
    }

    /// Returns the frequency of the note.
    ///
    /// Spellings that reach across a letter-octave boundary shift the
    /// octave first, so the written octave must leave room for that
    /// shift.
    pub fn frequency(&self) -> (r: Hertz)
        requires
            self.named_pitch_spec().octave_adjustment_spec() == 1 ==> self.octave_spec()
                != Octave::Fifteen,
            self.named_pitch_spec().octave_adjustment_spec() == -1 ==> self.octave_spec()
                != Octave::Zero,
        ensures
            r@ == self.frequency_units_spec(),
    {
        let adjustment = self.named_pitch.octave_adjustment();
        let octave = if adjustment == 1 {
            self.octave.add_i8(1)
        } else if adjustment == -1 {
            self.octave.add_i8(-1)
        } else {
            self.octave
        };
        let base = self.pitch().base_frequency();
        let b = base.ten_thousandths();
        let m = octave.multiplier();
        proof {
            assert(0 <= b <= 308_700);
            assert(0 <= b * m <= 308_700 * 32_768) by (nonlinear_arith)
                requires
                    0 <= b <= 308_700,
                    1 <= m <= 32_768,
            ;
        }
        let units = b * m;
        Hertz::from_ten_thousandths(units)
    }
}

} // verus!
