//! The instrument interface: how a voice layer drives a synthesizer.

use vstd::prelude::*;
use crate::music::note::Note;

verus! {

/// An error returned when an instrument cannot take another note.
#[derive(Debug)]
pub enum NoteError {
    /// Every voice of the instrument is already sounding.
    NoVoices,
}

/// An instrument that can be played note by note.
///
/// Implemented by synthesizers outside this crate; the sequencing layer
/// drives them through this interface.
pub trait Instrument {
    /// Initializes the instrument for use.
    fn init(&mut self);

    /// Signals to the instrument that a note has been pressed.
    fn note_on(&mut self, note: Note, velocity: u8) -> Result<(), NoteError>;

    /// Signals to the instrument that a note has been released.
    fn note_off(&mut self, note: Note);
}

} // verus!
