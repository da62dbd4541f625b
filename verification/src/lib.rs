//! Signal-generation and sample-representation core for sound synthesis.
//!
//! The crate is organised around four components: a bit-exact conversion
//! engine between fixed-point PCM sample formats, periodic waveform
//! oscillators driven by lookup tables, a fixed-capacity cache that lets
//! oscillators with equal parameters share one precomputed table, and an
//! attack/decay/sustain/release envelope state machine.

pub mod envelope;
pub mod freq;
pub mod instrument;
pub mod music;
pub mod oscillator;
pub mod sample;
pub mod sequence;
