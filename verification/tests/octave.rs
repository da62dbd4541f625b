//! Octave arithmetic and naming.

use catalina_engine::music::octave::{HasOctave, Octave};

#[test]
fn test_add_assign_self() {
    let mut a = Octave::Four;
    a = a.add(Octave::One);
    assert_eq!(a, Octave::Five);
}

#[test]
fn test_add_assign_i8() {
    let mut a = Octave::Four;
    a = a.add_i8(1);
    assert_eq!(a, Octave::Five);
}

#[test]
fn test_sub_assign_i8() {
    let mut a = Octave::Four;
    a = a.sub_i8(1);
    assert_eq!(a, Octave::Three);
}

#[test]
fn octave_test_properties() {
    assert_eq!(Octave::Four.octave(), Octave::Four);
    assert_eq!(Octave::default(), Octave::Four);
}

#[test]
fn test_names() {
    let names: Vec<&'static str> = Octave::all_octaves()
        .iter()
        .map(|o| o.static_name())
        .collect();
    assert_eq!(names.join(" "), "0 1 2 3 4 5 6 7 8 9 10 11 12 13 14 15");
}

#[test]
fn octave_add_sub_roundtrip() {
    assert_eq!(Octave::Three.add(Octave::Twelve), Octave::Fifteen);
    assert_eq!(Octave::Fifteen.sub(Octave::Twelve), Octave::Three);
    assert_eq!(Octave::Zero.add_i8(15), Octave::Fifteen);
    assert_eq!(Octave::Fifteen.sub_i8(15), Octave::Zero);
}

#[test]
fn octave_try_from_rejects_out_of_range() {
    assert_eq!(Octave::try_from(0).unwrap(), Octave::Zero);
    assert_eq!(Octave::try_from(15).unwrap(), Octave::Fifteen);
    assert!(Octave::try_from(16).is_err());
    assert!(Octave::try_from(255).is_err());
}

#[test]
fn octave_multiplier_doubles() {
    let octaves = Octave::all_octaves();
    let mut expected: i64 = 1;
    for o in octaves.iter() {
        assert_eq!(o.multiplier(), expected);
        expected *= 2;
    }
}
