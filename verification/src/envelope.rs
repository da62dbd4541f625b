//! The attack/decay/sustain/release envelope state machine.
//!
//! The envelope turns a per-sample boolean gate into a smoothed amplitude
//! multiplier.  Its stage logic is pure: a rising gate edge forces the
//! attack stage and a falling edge forces the release stage, from
//! whatever stage; the attack stage hands over to decay once the running
//! value exceeds the peak, and the decay and release stages return to
//! init once the running value falls below zero.  Sustain is implicit:
//! decay approaches the sustain level asymptotically and simply holds
//! there until the key is released.
//!
//! The per-sample one-pole smoothing that produces the running value
//! works in floating point and lives with the embedding program; it
//! feeds the two crossing flags below back into the stage machine.

use vstd::prelude::*;

verus! {

/// The stage an envelope is currently in.
///
/// Init is the initial stage and is re-entered whenever the output
/// decays below zero during release, so the machine restarts cleanly on
/// the next rising gate edge.
#[derive(Debug, Copy, Clone, Hash, PartialEq, Eq, Structural)]
pub enum EnvelopeStage {
    /// Idle: the envelope outputs silence and waits for a gate.
    Init,
    /// Rising from silence toward the peak level.
    Attack,
    /// Falling from the peak toward the sustain level, and holding there.
    Decay,
    /// Falling from the current level toward silence.
    Release,
}

impl EnvelopeStage {
    /// The stage after a gate edge: a rising edge forces attack and a
    /// falling edge forces release, from whatever stage; without an edge
    /// the stage stands.
    pub open spec fn after_gate_spec(self, previous_gate: bool, gate: bool) -> EnvelopeStage {
        if gate && !previous_gate {
            EnvelopeStage::Attack
        } else if !gate && previous_gate {
            EnvelopeStage::Release
        } else {
            self
        }
    }

    /// Applies a gate edge to the stage: gate rising (false to true)
    /// triggers the attack stage, gate falling (true to false) triggers
    /// the release stage.
    pub fn after_gate(self, previous_gate: bool, gate: bool) -> (r: EnvelopeStage)
        ensures
            r == self.after_gate_spec(previous_gate, gate),
    {
        if gate && !previous_gate {
            EnvelopeStage::Attack
        } else if !gate && previous_gate {
            EnvelopeStage::Release
        } else {
            self
        }
    }

    /// The stage after one smoothing step whose running value compares
    /// to the stage's boundary as the two flags say: attack hands over
    /// to decay once the value exceeds the peak, and decay or release
    /// return to init once the value falls below zero.
    pub open spec fn after_sample_spec(self, exceeded_peak: bool, fell_below_zero: bool) -> EnvelopeStage {
        match self {
            EnvelopeStage::Init => EnvelopeStage::Init,
            EnvelopeStage::Attack => if exceeded_peak {
                EnvelopeStage::Decay
            } else {
                EnvelopeStage::Attack
            },
            EnvelopeStage::Decay => if fell_below_zero {
                EnvelopeStage::Init
            } else {
                EnvelopeStage::Decay
            },
            EnvelopeStage::Release => if fell_below_zero {
                EnvelopeStage::Init
            } else {
                EnvelopeStage::Release
            },
        }
    }

    /// Advances the stage after one smoothing step.  `exceeded_peak`
    /// says whether the running value rose above the peak level during
    /// an attack; `fell_below_zero` says whether it fell below zero
    /// during a decay or release.
    pub fn after_sample(self, exceeded_peak: bool, fell_below_zero: bool) -> (r: EnvelopeStage)
        ensures
            r == self.after_sample_spec(exceeded_peak, fell_below_zero),
    {
        match self {
            EnvelopeStage::Init => EnvelopeStage::Init,
            EnvelopeStage::Attack => if exceeded_peak {
                EnvelopeStage::Decay
            } else {
                EnvelopeStage::Attack
            },
            EnvelopeStage::Decay => if fell_below_zero {
                EnvelopeStage::Init
            } else {
                EnvelopeStage::Decay
            },
            EnvelopeStage::Release => if fell_below_zero {
                EnvelopeStage::Init
            } else {
                EnvelopeStage::Release
            },
        }
    }
}

} // verus!
