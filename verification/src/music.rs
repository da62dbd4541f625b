//! Musical note arithmetic: octaves, pitch classes, named pitches and
//! notes, with the frequency lookup that feeds the oscillators.

pub mod named_pitch;
pub mod note;
pub mod octave;
pub mod pitch;
