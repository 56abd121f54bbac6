//! Tests of the whole voices: partials, instruments, and the
//! top-level synth.
//!
//! All audio quantities are decimal fixed point: 1_000_000_000 is 1.0.

use klangfarbrs::envelope::Envelope;
use klangfarbrs::fixed::SCALE;
use klangfarbrs::instrument::Instrument;
use klangfarbrs::osc::{Osc, Waveform};
use klangfarbrs::partial::Partial;
use klangfarbrs::{Breakpoint, MonoSynth};

#[test]
fn test_name() {
    let sr = 44800;
    let mut inst = Instrument::new(220_000_000_000, vec![SCALE, 2 * SCALE, 4 * SCALE], sr);
    let exts = vec![0, 0, 0];

    assert_eq!(inst.advance(&exts), Some(0));
    let mut last = None;
    while let Some(v) = inst.advance(&exts) {
        last = Some(v);
    }
    assert_eq!(last, Some(0));
    assert!(inst.complete);
}

#[test]
fn a_partial_emits_its_attack_then_its_decay_then_nothing() {
    // 5-sample attack (6 values) plus a 10 ms decay at 1000 samples
    // per second (11 values)
    let mut partial = Partial::new(SCALE, SCALE, SCALE, 0, 1000, 10, SCALE);
    let mut count = 0;
    while let Some(_) = partial.advance(0) {
        count += 1;
    }
    assert_eq!(count, 6 + 11);
    assert_eq!(partial.advance(0), None);
}

#[test]
fn a_partial_scales_its_oscillator_by_the_ramp() {
    // a square-wave partial makes the ramp values audible directly:
    // the first advance emits ramp 0.0 at full negative swing
    let mut partial = Partial::new(SCALE, SCALE, SCALE, 0, 1000, 10, SCALE);
    partial.osc.waveform = Waveform::Square;
    // attack ramp 0, 0.2, 0.4, ... times the square's -1/+1
    assert_eq!(partial.advance(0), Some(0));
    let second = partial.advance(0).unwrap();
    assert_eq!(second.abs(), 200_000_000);
}

#[test]
fn the_bell_preset_starts_and_ends_silent() {
    let mut bell = Instrument::bell(220_000_000_000, 100, 8000);
    let exts = vec![0; 11];
    assert_eq!(bell.advance(&exts), Some(0));
    let mut last = None;
    while let Some(v) = bell.advance(&exts) {
        last = Some(v);
    }
    assert_eq!(last, Some(0));
    assert!(bell.complete);
}

#[test]
fn an_exhausted_instrument_stays_complete() {
    let mut inst = Instrument::new(SCALE, vec![SCALE], 1000);
    let exts = vec![0];
    while let Some(_) = inst.advance(&exts) {}
    assert!(inst.complete);
    assert_eq!(inst.advance(&exts), None);
    assert!(inst.complete);
    assert_eq!(inst.sample(&exts), 0);
}

#[test]
fn the_bank_strategy_averages_under_one_envelope() {
    // one silent-frequency square oscillator: every sample is -1.0;
    // zero-length stages make the envelope [0.0, 1.0, 0.5]
    let mut osc = Osc::new(0, 100);
    osc.waveform = Waveform::Square;
    let envelope = Envelope::new(0, 0, 500_000_000, 0, 100);
    let mut inst = Instrument::bank(vec![osc], envelope);
    let exts = vec![0];
    assert_eq!(inst.advance(&exts), Some(0));
    assert_eq!(inst.advance(&exts), Some(-SCALE));
    assert_eq!(inst.advance(&exts), Some(-500_000_000));
    assert_eq!(inst.advance(&exts), None);
    assert!(inst.complete);
}

#[test]
fn frames_produces_the_requested_count() {
    let mut synth = MonoSynth::new();
    synth.square();
    // 440 Hz at 48000: the first ticks sit in the first half cycle
    let frames = synth.frames(3);
    assert_eq!(frames, vec![-SCALE, -SCALE, -SCALE]);
}

#[test]
fn a_setter_given_the_value_it_holds_changes_no_output() {
    let mut a = MonoSynth::new();
    let mut b = MonoSynth::new();
    a.square();
    b.square();
    a.continuous(false);
    b.continuous(false);

    // b re-sets every parameter to the value it already holds
    b.frequency(440_000_000_000);
    b.continuous(false);
    b.apply_bend(false);
    b.set_sample_rate(48000);
    b.frequency_modulation(false);
    b.fm_depth(100_000_000);
    b.set_attack(10);
    b.set_decay(100);
    b.set_sustain(500_000_000);
    b.set_release(500);

    for _ in 0..2000 {
        assert_eq!(a.step(0, 0), b.step(0, 0));
    }
}

#[test]
fn retriggering_resets_the_envelope_completely() {
    let mut a = MonoSynth::new();
    let mut b = MonoSynth::new();
    a.square();
    b.square();
    a.continuous(false);
    b.continuous(false);

    // a has played half a second into its envelope; b has not
    for _ in 0..24000 {
        a.step(0, 0);
    }
    a.trigger();
    b.trigger();
    for _ in 0..2000 {
        assert_eq!(a.step(0, 0), b.step(0, 0));
    }
}

#[test]
fn an_exhausted_envelope_shapes_to_silence() {
    let mut synth = MonoSynth::new();
    synth.square();
    synth.continuous(false);
    synth.envelope(0, 0, 500_000_000, 0);
    // three envelope values, then silence forever
    synth.step(0, 0);
    synth.step(0, 0);
    synth.step(0, 0);
    for _ in 0..100 {
        assert_eq!(synth.step(0, 0), 0);
    }
}

#[test]
fn degenerate_bend_breakpoints_are_rejected() {
    let mut synth = MonoSynth::new();
    let held = synth.phasor_bend;
    synth.phasor_bend(Breakpoint { x: 0, y: 500_000_000 });
    assert_eq!(synth.phasor_bend, held);
    synth.phasor_bend(Breakpoint { x: SCALE, y: 500_000_000 });
    assert_eq!(synth.phasor_bend, held);
    let good = Breakpoint { x: 500_000_000, y: 250_000_000 };
    synth.phasor_bend(good);
    assert_eq!(synth.phasor_bend, good);
}

#[test]
fn bending_warps_the_stored_phase() {
    let mut synth = MonoSynth::new();
    synth.square();
    synth.phasor_bend(Breakpoint { x: 500_000_000, y: 250_000_000 });
    synth.apply_bend(true);
    // raw first phase is 440e9 / 48000 = 9_166_666; below the
    // breakpoint the warp halves it
    synth.step(0, 0);
    assert_eq!(synth.osc.phasor.phase, 4_583_333);
}

#[test]
fn frequency_modulation_moves_the_carrier_before_the_tick() {
    let mut synth = MonoSynth::new();
    synth.square();
    synth.frequency_modulation(true);
    // modulator sine value 1.0 at default depth 0.1 adds 0.1 Hz
    synth.step(SCALE, 0);
    assert_eq!(synth.osc.phasor.frequency, 440_000_000_000 + 100_000_000);
}

#[test]
fn waveform_setters_reach_the_carrier() {
    let mut synth = MonoSynth::new();
    synth.square();
    assert_eq!(synth.osc.waveform, Waveform::Square);
    synth.triangle();
    assert_eq!(synth.osc.waveform, Waveform::Triangle);
    synth.sawtooth();
    assert_eq!(synth.osc.waveform, Waveform::Sawtooth);
    synth.white_noise();
    assert_eq!(synth.osc.waveform, Waveform::WhiteNoise);
    synth.brown_noise();
    assert_eq!(synth.osc.waveform, Waveform::BrownNoise);
    synth.sine();
    assert_eq!(synth.osc.waveform, Waveform::Sine);
}
