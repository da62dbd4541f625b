//! Sequencing data: projects holding patterns of tracks and steps.

use vstd::prelude::*;
use crate::sequence::pattern::Pattern;

pub mod pattern;

verus! {

/// An error returned when a project cannot hold another pattern.
#[derive(Debug)]
pub enum PatternError {
    /// The project already holds as many patterns as it can.
    PatternsFull,
}

/// A project: a bounded collection of patterns.
pub struct Project<const PATTERNS: usize, const TRACKS: usize, const STEPS: usize> {
    /// The list of patterns in the project, at most `PATTERNS` long.
    patterns: Vec<Option<Pattern<TRACKS, STEPS>>>,
}

impl<const PATTERNS: usize, const TRACKS: usize, const STEPS: usize> Project<
    PATTERNS,
    TRACKS,
    STEPS,
> {
    /// The type invariant: the project never holds more than `PATTERNS`
    /// patterns.
    #[verifier::type_invariant]
    pub closed spec fn wf(self) -> bool {
        self.patterns@.len() <= PATTERNS
    }

    /// The slots of the project, each either a pattern or empty.
    pub closed spec fn patterns_spec(&self) -> Seq<Option<Pattern<TRACKS, STEPS>>> {
        self.patterns@
    }

    /// Constructs an empty project.
    pub fn new() -> (r: Self)
        ensures
            r.patterns_spec().len() == 0,
    {
        Self { patterns: Vec::new() }
    }

    /// How many pattern slots the project currently has.
    pub fn pattern_count(&self) -> (r: usize)
        ensures
            r == self.patterns_spec().len(),
    {
        self.patterns.len()
    }

    /// Retrieves a reference to the pattern in slot `index`: the pattern
    /// there, or nothing when the slot is empty or lies past the end.
    pub fn get_pattern(&self, index: usize) -> (r: Option<&Pattern<TRACKS, STEPS>>)
        requires
            index != self.patterns_spec().len(),
        ensures
            match r {
                Some(p) => index < self.patterns_spec().len() && self.patterns_spec()[index as int]
                    == Some(*p),
                None => index > self.patterns_spec().len() || self.patterns_spec()[index as int]
                    is None,
            },
    {
        if index > self.patterns.len() {
            return None;
        }
        match &self.patterns[index] {
            Some(pattern) => Some(pattern),
            None => None,
        }
    }
}

} // verus!
