//! Sample representation and the bit-exact conversion engine.
//!
//! A sample format is one of the signed or unsigned 8/16/24/32/48/64-bit
//! integer formats.  The 24-bit and 48-bit formats are narrow wrappers
//! around a wider native integer and live in [`types`]; every ordered pair
//! of formats has a pure conversion function in [`conv`], specified against
//! the single mathematical model in [`fmt`] and related by the proved laws
//! in [`laws`].

pub mod conv;
pub mod fmt;
pub mod laws;
pub mod types;
