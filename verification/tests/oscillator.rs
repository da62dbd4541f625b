//! Lookup-table oscillators walking a period.

use catalina_engine::oscillator::{LookupOscillator, Oscillator};
use catalina_engine::sequence::pattern::Note as SequenceNote;
use catalina_engine::sequence::Project;

#[test]
fn lookup_oscillator_wraps_period() {
    let table: Vec<i16> = vec![10, 20, 30, 40];
    let mut osc = LookupOscillator::new_from_table(4, &table);
    let mut seen: Vec<i16> = Vec::new();
    for _ in 0..6 {
        seen.push(osc.sample());
    }
    assert_eq!(seen, vec![10, 20, 30, 40, 10, 20]);
}

#[test]
fn lookup_oscillator_sample_at_wraps_index() {
    let table: Vec<i16> = vec![10, 20, 30, 40];
    let osc = LookupOscillator::new_from_table(4, &table);
    assert_eq!(osc.sample_at(0), 10);
    assert_eq!(osc.sample_at(5), 20);
    assert_eq!(osc.sample_at(403), 40);
}

#[test]
fn lookup_oscillator_renders_buffer() {
    let table: Vec<i16> = vec![1, 2, 3];
    let mut osc = LookupOscillator::new_from_table(3, &table);
    let mut buffer: Vec<i16> = vec![0; 7];
    osc.render(&mut buffer);
    assert_eq!(buffer, vec![1, 2, 3, 1, 2, 3, 1]);
}

#[test]
fn project_starts_empty() {
    let project: Project<4, 2, 16> = Project::new();
    assert_eq!(project.pattern_count(), 0);
    assert!(project.get_pattern(1).is_none());
}

#[test]
fn pattern_has_empty_track_slots() {
    let pattern: catalina_engine::sequence::pattern::Pattern<3, 16> =
        catalina_engine::sequence::pattern::Pattern::new();
    assert_eq!(pattern.track_count(), 3);
}

#[test]
fn sequence_note_carries_length_and_velocity() {
    let note = SequenceNote::new(4, 100);
    assert_eq!(note.length(), 4);
    assert_eq!(note.velocity(), 100);
}
