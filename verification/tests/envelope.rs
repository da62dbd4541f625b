//! Stage transitions of the envelope state machine.

use catalina_engine::envelope::EnvelopeStage;

#[test]
fn envelope_gate_cycle() {
    // A rising gate edge forces attack from idle.
    let s = EnvelopeStage::Init.after_gate(false, true);
    assert_eq!(s, EnvelopeStage::Attack);

    // While the key is held the stage stands; crossing the peak hands
    // over to decay.
    assert_eq!(s.after_gate(true, true), EnvelopeStage::Attack);
    let s = s.after_sample(true, false);
    assert_eq!(s, EnvelopeStage::Decay);

    // Decay holds at the sustain level while the key stays held.
    let s = s.after_sample(false, false);
    assert_eq!(s, EnvelopeStage::Decay);

    // A falling edge forces release, and the machine returns to idle
    // once the output has decayed below zero.
    let s = s.after_gate(true, false);
    assert_eq!(s, EnvelopeStage::Release);
    let s = s.after_sample(false, false);
    assert_eq!(s, EnvelopeStage::Release);
    let s = s.after_sample(false, true);
    assert_eq!(s, EnvelopeStage::Init);
}

#[test]
fn envelope_edges_override_any_stage() {
    for s in [
        EnvelopeStage::Init,
        EnvelopeStage::Attack,
        EnvelopeStage::Decay,
        EnvelopeStage::Release,
    ] {
        assert_eq!(s.after_gate(false, true), EnvelopeStage::Attack);
        assert_eq!(s.after_gate(true, false), EnvelopeStage::Release);
        assert_eq!(s.after_gate(true, true), s);
        assert_eq!(s.after_gate(false, false), s);
    }
}

#[test]
fn envelope_init_ignores_crossings() {
    assert_eq!(EnvelopeStage::Init.after_sample(true, true), EnvelopeStage::Init);
    assert_eq!(EnvelopeStage::Attack.after_sample(false, true), EnvelopeStage::Attack);
    assert_eq!(EnvelopeStage::Release.after_sample(true, false), EnvelopeStage::Release);
}
