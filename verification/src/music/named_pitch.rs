//! The [`NamedPitch`] enum: pitches as written, accidentals included.
//!
//! A named pitch keeps the letter and accidental a note was written
//! with, so enharmonic spellings stay distinct: B sharp and C name the
//! same pitch class but different letters.  Spellings that cross a
//! letter-octave boundary (B sharp and above, C flat and below) carry an
//! octave adjustment, applied when a note's frequency is computed.

use vstd::prelude::*;
use crate::music::pitch::Pitch;

verus! {

/// A pitch as written: a letter with up to three flats or sharps.
#[derive(PartialEq, Eq, Clone, Copy, Hash, Debug, Structural)]
pub enum NamedPitch {
    /// The pitch F triple-flat.
    FTripleFlat,
    /// The pitch C triple-flat.
    CTripleFlat,
    /// The pitch G triple-flat.
    GTripleFlat,
    /// The pitch D triple-flat.
    DTripleFlat,
    /// The pitch A triple-flat.
    ATripleFlat,
    /// The pitch E triple-flat.
    ETripleFlat,
    /// The pitch B triple-flat.
    BTripleFlat,
    /// The pitch F double-flat.
    FDoubleFlat,
    /// The pitch C double-flat.
    CDoubleFlat,
    /// The pitch G double-flat.
    GDoubleFlat,
    /// The pitch D double-flat.
    DDoubleFlat,
    /// The pitch A double-flat.
    ADoubleFlat,
    /// The pitch E double-flat.
    EDoubleFlat,
    /// The pitch B double-flat.
    BDoubleFlat,
    /// The pitch F flat.
    FFlat,
    /// The pitch C flat.
    CFlat,
    /// The pitch G flat.
    GFlat,
    /// The pitch D flat.
    DFlat,
    /// The pitch A flat.
    AFlat,
    /// The pitch E flat.
    EFlat,
    /// The pitch B flat.
    BFlat,
    /// The pitch F.
    F,
    /// The pitch C.
    C,
    /// The pitch G.
    G,
    /// The pitch D.
    D,
    /// The pitch A.
    A,
    /// The pitch E.
    E,
    /// The pitch B.
    B,
    /// The pitch F sharp.
    FSharp,
    /// The pitch C sharp.
    CSharp,
    /// The pitch G sharp.
    GSharp,
    /// The pitch D sharp.
    DSharp,
    /// The pitch A sharp.
    ASharp,
    /// The pitch E sharp.
    ESharp,
    /// The pitch B sharp.
    BSharp,
    /// The pitch F double-sharp.
    FDoubleSharp,
    /// The pitch C double-sharp.
    CDoubleSharp,
    /// The pitch G double-sharp.
    GDoubleSharp,
    /// The pitch D double-sharp.
    DDoubleSharp,
    /// The pitch A double-sharp.
    ADoubleSharp,
    /// The pitch E double-sharp.
    EDoubleSharp,
    /// The pitch B double-sharp.
    BDoubleSharp,
    /// The pitch F triple-sharp.
    FTripleSharp,
    /// The pitch C triple-sharp.
    CTripleSharp,
    /// The pitch G triple-sharp.
    GTripleSharp,
    /// The pitch D triple-sharp.
    DTripleSharp,
    /// The pitch A triple-sharp.
    ATripleSharp,
    /// The pitch E triple-sharp.
    ETripleSharp,
    /// The pitch B triple-sharp.
    BTripleSharp,
}

impl NamedPitch {
    /// The pitch class this spelling names.
    pub open spec fn pitch_spec(self) -> Pitch {
        match self {
            NamedPitch::FTripleFlat => Pitch::D,
            NamedPitch::CTripleFlat => Pitch::A,
            NamedPitch::GTripleFlat => Pitch::E,
            NamedPitch::DTripleFlat => Pitch::B,
            NamedPitch::ATripleFlat => Pitch::GFlat,
            NamedPitch::ETripleFlat => Pitch::DFlat,
            NamedPitch::BTripleFlat => Pitch::AFlat,
            NamedPitch::FDoubleFlat => Pitch::EFlat,
            NamedPitch::CDoubleFlat => Pitch::BFlat,
            NamedPitch::GDoubleFlat => Pitch::F,
            NamedPitch::DDoubleFlat => Pitch::C,
            NamedPitch::ADoubleFlat => Pitch::G,
            NamedPitch::EDoubleFlat => Pitch::D,
            NamedPitch::BDoubleFlat => Pitch::A,
            NamedPitch::FFlat => Pitch::E,
            NamedPitch::CFlat => Pitch::B,
            NamedPitch::GFlat => Pitch::GFlat,
            NamedPitch::DFlat => Pitch::DFlat,
            NamedPitch::AFlat => Pitch::AFlat,
            NamedPitch::EFlat => Pitch::EFlat,
            NamedPitch::BFlat => Pitch::BFlat,
            NamedPitch::F => Pitch::F,
            NamedPitch::C => Pitch::C,
            NamedPitch::G => Pitch::G,
            NamedPitch::D => Pitch::D,
            NamedPitch::A => Pitch::A,
            NamedPitch::E => Pitch::E,
            NamedPitch::B => Pitch::B,
            NamedPitch::FSharp => Pitch::GFlat,
            NamedPitch::CSharp => Pitch::DFlat,
            NamedPitch::GSharp => Pitch::AFlat,
            NamedPitch::DSharp => Pitch::EFlat,
            NamedPitch::ASharp => Pitch::BFlat,
            NamedPitch::ESharp => Pitch::F,
            NamedPitch::BSharp => Pitch::C,
            NamedPitch::FDoubleSharp => Pitch::G,
            NamedPitch::CDoubleSharp => Pitch::D,
            NamedPitch::GDoubleSharp => Pitch::A,
            NamedPitch::DDoubleSharp => Pitch::E,
            NamedPitch::ADoubleSharp => Pitch::B,
            NamedPitch::EDoubleSharp => Pitch::GFlat,
            NamedPitch::BDoubleSharp => Pitch::DFlat,
            NamedPitch::FTripleSharp => Pitch::AFlat,
            NamedPitch::CTripleSharp => Pitch::EFlat,
            NamedPitch::GTripleSharp => Pitch::BFlat,
            NamedPitch::DTripleSharp => Pitch::F,
            NamedPitch::ATripleSharp => Pitch::C,
            NamedPitch::ETripleSharp => Pitch::G,
            NamedPitch::BTripleSharp => Pitch::D,
        }
    }

    /// Returns the pitch class this spelling names.
    pub fn pitch(self) -> (r: Pitch)
        ensures
            r == self.pitch_spec(),
    {
        match self {
            NamedPitch::FTripleFlat => Pitch::D,
            NamedPitch::CTripleFlat => Pitch::A,
            NamedPitch::GTripleFlat => Pitch::E,
            NamedPitch::DTripleFlat => Pitch::B,
            NamedPitch::ATripleFlat => Pitch::GFlat,
            NamedPitch::ETripleFlat => Pitch::DFlat,
            NamedPitch::BTripleFlat => Pitch::AFlat,
            NamedPitch::FDoubleFlat => Pitch::EFlat,
            NamedPitch::CDoubleFlat => Pitch::BFlat,
            NamedPitch::GDoubleFlat => Pitch::F,
            NamedPitch::DDoubleFlat => Pitch::C,
            NamedPitch::ADoubleFlat => Pitch::G,
            NamedPitch::EDoubleFlat => Pitch::D,
            NamedPitch::BDoubleFlat => Pitch::A,
            NamedPitch::FFlat => Pitch::E,
            NamedPitch::CFlat => Pitch::B,
            NamedPitch::GFlat => Pitch::GFlat,
            NamedPitch::DFlat => Pitch::DFlat,
            NamedPitch::AFlat => Pitch::AFlat,
            NamedPitch::EFlat => Pitch::EFlat,
            NamedPitch::BFlat => Pitch::BFlat,
            NamedPitch::F => Pitch::F,
            NamedPitch::C => Pitch::C,
            NamedPitch::G => Pitch::G,
            NamedPitch::D => Pitch::D,
            NamedPitch::A => Pitch::A,
            NamedPitch::E => Pitch::E,
            NamedPitch::B => Pitch::B,
            NamedPitch::FSharp => Pitch::GFlat,
            NamedPitch::CSharp => Pitch::DFlat,
            NamedPitch::GSharp => Pitch::AFlat,
            NamedPitch::DSharp => Pitch::EFlat,
            NamedPitch::ASharp => Pitch::BFlat,
            NamedPitch::ESharp => Pitch::F,
            NamedPitch::BSharp => Pitch::C,
            NamedPitch::FDoubleSharp => Pitch::G,
            NamedPitch::CDoubleSharp => Pitch::D,
            NamedPitch::GDoubleSharp => Pitch::A,
            NamedPitch::DDoubleSharp => Pitch::E,
            NamedPitch::ADoubleSharp => Pitch::B,
            NamedPitch::EDoubleSharp => Pitch::GFlat,
            NamedPitch::BDoubleSharp => Pitch::DFlat,
            NamedPitch::FTripleSharp => Pitch::AFlat,
            NamedPitch::CTripleSharp => Pitch::EFlat,
            NamedPitch::GTripleSharp => Pitch::BFlat,
            NamedPitch::DTripleSharp => Pitch::F,
            NamedPitch::ATripleSharp => Pitch::C,
            NamedPitch::ETripleSharp => Pitch::G,
            NamedPitch::BTripleSharp => Pitch::D,
        }
    }

    /// How many octaves the spelling shifts a note against its written
    /// octave: spellings at or above B sharp reach into the next octave
    /// and spellings at or below C flat into the previous one.
    pub open spec fn octave_adjustment_spec(self) -> int {
        match self {
            NamedPitch::CTripleFlat => -1,
            NamedPitch::DTripleFlat => -1,
            NamedPitch::CDoubleFlat => -1,
            NamedPitch::CFlat => -1,
            NamedPitch::BSharp => 1,
            NamedPitch::BDoubleSharp => 1,
            NamedPitch::ATripleSharp => 1,
            NamedPitch::BTripleSharp => 1,
            _ => 0,
        }
    }

    /// Returns the octave adjustment carried by the spelling.
    pub fn octave_adjustment(self) -> (r: i8)
        ensures
            r == self.octave_adjustment_spec(),
    {
        match self {
            NamedPitch::CTripleFlat => -1,
            NamedPitch::DTripleFlat => -1,
            NamedPitch::CDoubleFlat => -1,
            NamedPitch::CFlat => -1,
            NamedPitch::BSharp => 1,
            NamedPitch::BDoubleSharp => 1,
            NamedPitch::ATripleSharp => 1,
            NamedPitch::BTripleSharp => 1,
            _ => 0,
        }
    }
}

} // verus!
