//! Patterns: grids of steps that sequence an instrument.

use vstd::prelude::*;

verus! {

/// A note in a sequence, with a length and a velocity.
#[derive(Debug, Clone, Copy, PartialEq, Eq, Structural)]
pub struct Note {
    /// The length of the note in steps.
    length: u32,
    /// The velocity to press the note with, fed to instruments as the
    /// note-on velocity.
    velocity: u8,
}

impl Note {
    /// The length of the note in steps.
    pub closed spec fn length_spec(self) -> int {
        self.length as int
    }

    /// The velocity the note is pressed with.
    pub closed spec fn velocity_spec(self) -> int {
        self.velocity as int
    }

    /// Constructs a note of the given length and velocity.
    pub fn new(length: u32, velocity: u8) -> (r: Note)
        ensures
            r.length_spec() == length,
            r.velocity_spec() == velocity,
    {
        Note { length, velocity }
    }

    /// The length of the note in steps.
    pub fn length(&self) -> (r: u32)
        ensures
            r == self.length_spec(),
    {
        self.length
    }

    /// The velocity the note is pressed with.
    pub fn velocity(&self) -> (r: u8)
        ensures
            r == self.velocity_spec(),
    {
        self.velocity
    }
}

/// A single step in a pattern, able to trigger up to eight notes.
#[derive(Debug, Clone, Copy)]
pub struct Step {
    /// The notes triggered by the pattern step.
    notes: [Option<Note>; 8],
}

/// One track of a pattern: a bounded list of optional steps.
pub struct Track<const STEPS: usize> {
    /// The steps of the track, one slot per step position.
    steps: Vec<Option<Step>>,
    /// The play length of the track, in steps.
    length: u8,
}

/// A pattern: a fixed number of optional tracks whose steps are
/// sequenced to play an instrument.
pub struct Pattern<const TRACKS: usize, const STEPS: usize> {
    /// The tracks of the pattern, one slot per track.
    tracks: Vec<Option<Track<STEPS>>>,
}

impl<const TRACKS: usize, const STEPS: usize> Pattern<TRACKS, STEPS> {
    /// The track slots of the pattern.
    pub closed spec fn tracks_spec(&self) -> Seq<Option<Track<STEPS>>> {
        self.tracks@
    }

    /// Constructs a pattern with every track slot empty.
    pub fn new() -> (r: Self)
        ensures
            r.tracks_spec().len() == TRACKS,
            forall|i: int| 0 <= i < TRACKS ==> r.tracks_spec()[i] is None,
    {
        let mut tracks: Vec<Option<Track<STEPS>>> = Vec::new();
        let mut i: usize = 0;
        while i < TRACKS
            invariant
                i <= TRACKS,
                tracks@.len() == i,
                forall|j: int| 0 <= j < i ==> tracks@[j] is None,
            decreases TRACKS - i,
        {
            tracks.push(None);
            i = i + 1;
        }
        Self { tracks }
    }

    /// How many track slots the pattern has.
    pub fn track_count(&self) -> (r: usize)
        ensures
            r == self.tracks_spec().len(),
    {
        self.tracks.len()
    }
}

} // verus!
