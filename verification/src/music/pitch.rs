//! The [`Pitch`] enum: the twelve pitch classes and their base
//! frequencies.

use vstd::prelude::*;
use crate::freq::Hertz;

verus! {

/// A trait for types that have a pitch property.
pub trait HasPitch {
    /// Returns the pitch of the type.
    fn pitch(&self) -> Pitch;
}

/// The pitch class of a note.
///
/// The frequencies of the pitches are based on the A4 pitch standard.
/// There is no enharmonic representation here, so all of the sharps are
/// represented by their flat equivalents.
#[derive(PartialEq, Eq, Clone, Copy, Hash, Debug, Ord, PartialOrd, Structural)]
pub enum Pitch {
    /// The pitch C.
    C,
    /// The pitch C♯ / D♭.
    DFlat,
    /// The pitch D.
    D,
    /// The pitch D♯ / E♭.
    EFlat,
    /// The pitch E.
    E,
    /// The pitch F.
    F,
    /// The pitch F♯ / G♭.
    GFlat,
    /// The pitch G.
    G,
    /// The pitch G♯ / A♭.
    AFlat,
    /// The pitch A.
    A,
    /// The pitch A♯ / B♭.
    BFlat,
    /// The pitch B.
    B,
}

impl Pitch {
    /// The pitch's number of semitones above C.
    pub open spec fn semitone_spec(self) -> int {
        match self {
            Pitch::C => 0,
            Pitch::DFlat => 1,
            Pitch::D => 2,
            Pitch::EFlat => 3,
            Pitch::E => 4,
            Pitch::F => 5,
            Pitch::GFlat => 6,
            Pitch::G => 7,
            Pitch::AFlat => 8,
            Pitch::A => 9,
            Pitch::BFlat => 10,
            Pitch::B => 11,
        }
    }

    /// The pitch's base frequency, in 0.0001 Hz units: the frequency of
    /// the pitch in octave zero.
    pub open spec fn base_frequency_units_spec(self) -> int {
        match self {
            Pitch::C => 163_500,
            Pitch::DFlat => 173_200,
            Pitch::D => 183_500,
            Pitch::EFlat => 194_500,
            Pitch::E => 206_000,
            Pitch::F => 218_300,
            Pitch::GFlat => 231_200,
            Pitch::G => 245_000,
            Pitch::AFlat => 259_600,
            Pitch::A => 275_000,
            Pitch::BFlat => 291_400,
            Pitch::B => 308_700,
        }
    }

    /// Returns the base frequency of the pitch: its frequency in octave
    /// zero, from 16.35 Hz for C up to 30.87 Hz for B.
    pub fn base_frequency(&self) -> (r: Hertz)
        ensures
            r@ == self.base_frequency_units_spec(),
    {
        let units: i64 = match self {
            Pitch::C => 163_500,
            Pitch::DFlat => 173_200,
            Pitch::D => 183_500,
            Pitch::EFlat => 194_500,
            Pitch::E => 206_000,
            Pitch::F => 218_300,
            Pitch::GFlat => 231_200,
            Pitch::G => 245_000,
            Pitch::AFlat => 259_600,
            Pitch::A => 275_000,
            Pitch::BFlat => 291_400,
            Pitch::B => 308_700,
        };
        Hertz::from_ten_thousandths(units)
    }

    /// Returns the pitch with the given number of semitones above C, or
    /// an error above 11.
    pub fn try_from(value: u8) -> (r: Result<Pitch, &'static str>)
        ensures
            value <= 11 ==> (r matches Ok(p) && p.semitone_spec() == value),
            value > 11 ==> r is Err,
    {
        match value {
            0 => Ok(Pitch::C),
            1 => Ok(Pitch::DFlat),
            2 => Ok(Pitch::D),
            3 => Ok(Pitch::EFlat),
            4 => Ok(Pitch::E),
            5 => Ok(Pitch::F),
            6 => Ok(Pitch::GFlat),
            7 => Ok(Pitch::G),
            8 => Ok(Pitch::AFlat),
            9 => Ok(Pitch::A),
            10 => Ok(Pitch::BFlat),
            11 => Ok(Pitch::B),
            _ => Err("Invalid pitch"),
        }
    }

    /// All twelve pitches in ascending order.
    pub fn all_pitches() -> (r: Vec<Pitch>)
        ensures
            r@.len() == 12,
            forall|i: int| 0 <= i < 12 ==> (#[trigger] r@[i]).semitone_spec() == i,
    {
        let mut v: Vec<Pitch> = Vec::new();
        v.push(Pitch::C);
        v.push(Pitch::DFlat);
        v.push(Pitch::D);
        v.push(Pitch::EFlat);
        v.push(Pitch::E);
        v.push(Pitch::F);
        v.push(Pitch::GFlat);
        v.push(Pitch::G);
        v.push(Pitch::AFlat);
        v.push(Pitch::A);
        v.push(Pitch::BFlat);
        v.push(Pitch::B);
        v
    }
}

impl HasPitch for Pitch {
    /// A pitch's pitch is itself.
    fn pitch(&self) -> (r: Pitch)
        ensures
            r == *self,
    {
        *self
    }
}

} // verus!
