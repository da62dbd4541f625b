//! Sharing and capacity behaviour of the oscillator table cache.

use std::rc::Rc;

use catalina_engine::freq::Hertz;
use catalina_engine::oscillator::{DutyCycle, OscillatorAllocator, OscillatorType, TableError};

fn table(fill: i16, len: usize) -> Vec<i16> {
    vec![fill; len]
}

#[test]
fn allocator_shares_equal_keys() {
    let mut cache: OscillatorAllocator<i16> = OscillatorAllocator::new(4, 2);
    let f = Hertz::from_hertz(440);
    let filed = cache
        .insert(OscillatorType::Square, f, DutyCycle::Half, table(7, 4))
        .unwrap();

    // A frequency within 0.0001 Hz of the filed one hits the same table.
    let near = Hertz::from_ten_thousandths(4_400_001);
    let hit1 = cache.lookup(OscillatorType::Square, near, DutyCycle::Half).unwrap();
    let hit2 = cache.lookup(OscillatorType::Square, f, DutyCycle::Half).unwrap();
    assert!(Rc::ptr_eq(&hit1, &hit2));
    assert!(Rc::ptr_eq(&hit1, &filed));
    assert_eq!(*hit1, table(7, 4));

    // A different duty cycle misses and gets a distinct table.
    assert!(cache.lookup(OscillatorType::Square, f, DutyCycle::Quarter).is_none());
    let other = cache
        .insert(OscillatorType::Square, f, DutyCycle::Quarter, table(9, 4))
        .unwrap();
    assert!(!Rc::ptr_eq(&other, &filed));
    assert_eq!(*other, table(9, 4));
}

#[test]
fn allocator_rejects_wrong_size() {
    let mut cache: OscillatorAllocator<i16> = OscillatorAllocator::new(4, 2);
    let f = Hertz::from_hertz(220);
    let r = cache.insert(OscillatorType::Sine, f, DutyCycle::Half, table(1, 3));
    assert!(matches!(r, Err(TableError::IncorrectSize { expected: 4, actual: 3 })));
    assert_eq!(cache.table_count(), 0);
}

#[test]
fn allocator_full_leaves_entries_intact() {
    let mut cache: OscillatorAllocator<i16> = OscillatorAllocator::new(4, 2);
    let f1 = Hertz::from_hertz(110);
    let f2 = Hertz::from_hertz(220);
    let f3 = Hertz::from_hertz(330);
    cache.insert(OscillatorType::Saw, f1, DutyCycle::Half, table(1, 4)).unwrap();
    cache.insert(OscillatorType::Saw, f2, DutyCycle::Half, table(2, 4)).unwrap();

    let r = cache.insert(OscillatorType::Saw, f3, DutyCycle::Half, table(3, 4));
    assert!(matches!(r, Err(TableError::TableFull)));

    // The failed insertion corrupted nothing: both entries still answer.
    assert_eq!(cache.table_count(), 2);
    let t1 = cache.lookup(OscillatorType::Saw, f1, DutyCycle::Half).unwrap();
    let t2 = cache.lookup(OscillatorType::Saw, f2, DutyCycle::Half).unwrap();
    assert_eq!(*t1, table(1, 4));
    assert_eq!(*t2, table(2, 4));
    assert!(cache.lookup(OscillatorType::Saw, f3, DutyCycle::Half).is_none());
}

#[test]
fn duty_cycle_fractions() {
    assert_eq!(DutyCycle::default(), DutyCycle::Half);
    assert_eq!(DutyCycle::Eight.to_fractional_thousandths(), 125);
    assert_eq!(DutyCycle::Quarter.to_fractional_thousandths(), 250);
    assert_eq!(DutyCycle::Third.to_fractional_thousandths(), 330);
    assert_eq!(DutyCycle::Half.to_fractional_thousandths(), 500);
}

#[test]
fn allocator_first_match_wins() {
    let mut cache: OscillatorAllocator<i16> = OscillatorAllocator::new(2, 4);
    // Two entries one unit apart; a query between them hits the first.
    let f1 = Hertz::from_ten_thousandths(1_000_000);
    let f2 = Hertz::from_ten_thousandths(1_000_001);
    cache.insert(OscillatorType::Triangle, f1, DutyCycle::Half, table(1, 2)).unwrap();
    cache.insert(OscillatorType::Triangle, f2, DutyCycle::Half, table(2, 2)).unwrap();
    let hit = cache.lookup(OscillatorType::Triangle, f2, DutyCycle::Half).unwrap();
    assert_eq!(*hit, table(1, 2));
}
