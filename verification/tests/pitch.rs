//! Pitch classes, their base frequencies, and notes built from them.

use catalina_engine::freq::Hertz;
use catalina_engine::music::named_pitch::NamedPitch;
use catalina_engine::music::note::Note;
use catalina_engine::music::octave::Octave;
use catalina_engine::music::pitch::{HasPitch, Pitch};

#[test]
fn pitch_test_properties() {
    assert_eq!(Pitch::G.pitch(), Pitch::G);
    // G's base frequency is 24.50 Hz.
    assert_eq!(Pitch::G.base_frequency(), Hertz::from_ten_thousandths(245_000));
}

#[test]
fn pitch_base_frequencies_ascend() {
    let pitches = Pitch::all_pitches();
    assert_eq!(pitches.len(), 12);
    for w in pitches.windows(2) {
        assert!(
            w[0].base_frequency().ten_thousandths() < w[1].base_frequency().ten_thousandths()
        );
    }
    assert_eq!(Pitch::C.base_frequency().ten_thousandths(), 163_500);
    assert_eq!(Pitch::B.base_frequency().ten_thousandths(), 308_700);
}

#[test]
fn pitch_try_from_rejects_out_of_range() {
    assert_eq!(Pitch::try_from(0).unwrap(), Pitch::C);
    assert_eq!(Pitch::try_from(11).unwrap(), Pitch::B);
    assert!(Pitch::try_from(12).is_err());
}

#[test]
fn named_pitch_enharmonics() {
    assert_eq!(NamedPitch::BSharp.pitch(), Pitch::C);
    assert_eq!(NamedPitch::CFlat.pitch(), Pitch::B);
    assert_eq!(NamedPitch::FTripleFlat.pitch(), Pitch::D);
    assert_eq!(NamedPitch::GDoubleSharp.pitch(), Pitch::A);
    assert_eq!(NamedPitch::A.pitch(), Pitch::A);
}

#[test]
fn note_frequency_of_a4_is_440() {
    // A in octave 4: 27.5 Hz * 2^4 = 440 Hz.
    let note = Note::new(NamedPitch::A, Octave::Four);
    assert_eq!(note.octave(), Octave::Four);
    assert_eq!(note.pitch(), Pitch::A);
    assert_eq!(note.frequency().ten_thousandths(), 4_400_000);
    assert_eq!(note.frequency().hertz(), 440);
}

#[test]
fn note_frequency_applies_octave_adjustment() {
    // B sharp is the C of the next octave up: 16.35 Hz * 2^5.
    let up = Note::new(NamedPitch::BSharp, Octave::Four);
    assert_eq!(up.frequency().ten_thousandths(), 163_500 * 32);
    // C flat is the B of the previous octave: 30.87 Hz * 2^3.
    let down = Note::new(NamedPitch::CFlat, Octave::Four);
    assert_eq!(down.frequency().ten_thousandths(), 308_700 * 8);
}

#[test]
fn hertz_equality_has_resolution() {
    let a = Hertz::from_ten_thousandths(4_400_000);
    let b = Hertz::from_ten_thousandths(4_400_001);
    let c = Hertz::from_ten_thousandths(4_400_002);
    assert_eq!(a, b);
    assert_eq!(b, c);
    assert_ne!(a, c);
    assert_eq!(Hertz::from_hertz(440), a);
}
