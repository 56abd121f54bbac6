//! Tests of the leaf components: phasor, ramps, envelope, oscillator.
//!
//! All audio quantities are decimal fixed point: 1_000_000_000 is 1.0.

use klangfarbrs::envelope::Envelope;
use klangfarbrs::fixed::{fx_add, fx_mul, SCALE};
use klangfarbrs::line::{interpolate, Line};
use klangfarbrs::osc::{random_unit, Osc, Waveform};
use klangfarbrs::phasor::Phasor;
use klangfarbrs::utils::{ms_to_samples, slope};

#[test]
fn it_produces_expected_next_value() {
    // frequency 10 Hz at 100 samples per second: first phase is 0.1
    let mut phasor = Phasor::new(10_000_000_000, 100);
    assert_eq!(phasor.advance(), 100_000_000);
}

#[test]
fn it_wraps_around_as_expected() {
    // 11 ticks of 0.1 cycles wrap past 1.0 exactly once
    let mut phasor = Phasor::new(10_000_000_000, 100);
    let mut last_val: i64 = 0;
    for _ in 0..11 {
        last_val = phasor.advance();
    }
    assert_eq!(last_val / SCALE, 0);
    // and the wrap is exact: the phase is 0.1 again
    assert_eq!(last_val, 100_000_000);
}

#[test]
fn phasor_with_zero_sample_rate_stays_put() {
    let mut phasor = Phasor::new(440_000_000_000, 0);
    assert_eq!(phasor.advance(), 0);
    assert_eq!(phasor.advance(), 0);
}

#[test]
fn phasor_wraps_negative_frequencies_into_the_cycle() {
    let mut phasor = Phasor::new(-10_000_000_000, 100);
    assert_eq!(phasor.advance(), 900_000_000);
    assert_eq!(phasor.advance(), 800_000_000);
}

#[test]
fn it_calculates_a_slope() {
    let expected = 500_000_000;
    let slope = slope(0, 500_000_000, 1);
    assert_eq!(slope, expected);
}

#[test]
fn it_calculates_the_next_values() {
    // 1 ms at 5000 samples per second: 5 steps from 0.0 to 0.5
    let mut line = Line::new(0, 500_000_000, 1, 5000);
    assert_eq!(line.advance(), Some(0));
    assert_eq!(line.advance(), Some(100_000_000));
    assert_eq!(line.advance(), Some(200_000_000));
    assert_eq!(line.advance(), Some(300_000_000));
    assert_eq!(line.advance(), Some(400_000_000));
    assert_eq!(line.advance(), Some(500_000_000));
    assert_eq!(line.advance(), None);
}

#[test]
fn a_falling_line_descends_exactly() {
    let mut line = Line::new(SCALE, 0, 1, 5000);
    assert_eq!(line.advance(), Some(SCALE));
    assert_eq!(line.advance(), Some(800_000_000));
    assert_eq!(line.advance(), Some(600_000_000));
    assert_eq!(line.advance(), Some(400_000_000));
    assert_eq!(line.advance(), Some(200_000_000));
    assert_eq!(line.advance(), Some(0));
    assert_eq!(line.advance(), None);
}

#[test]
fn a_zero_duration_line_emits_its_start_once() {
    let mut line = Line::new(700_000_000, 900_000_000, 0, 48000);
    assert_eq!(line.advance(), Some(700_000_000));
    assert_eq!(line.advance(), None);
    // exhaustion is permanent
    assert_eq!(line.advance(), None);
}

#[test]
fn interpolate_five_steps_is_exact() {
    // 0.0 to 1.0 in 5 steps: [0.0, 0.2, 0.4, 0.6, 0.8, 1.0] exactly
    let out = interpolate(0, SCALE, 5);
    assert_eq!(
        out,
        vec![0, 200_000_000, 400_000_000, 600_000_000, 800_000_000, 1_000_000_000]
    );
}

#[test]
fn ms_to_samples_truncates_the_rate_first() {
    // 44800 / 1000 truncates to 44 whole samples per millisecond
    assert_eq!(ms_to_samples(10, 44800), 440);
    assert_eq!(ms_to_samples(10, 48000), 480);
    assert_eq!(ms_to_samples(0, 48000), 0);
    assert_eq!(ms_to_samples(10, 999), 0);
}

#[test]
fn envelope_length_counts_all_three_stages() {
    // 10 ms stages at 48000: 480 samples each, 481 values each
    let total = Envelope::new(10, 10, SCALE, 10, 48000).len();
    assert_eq!(total, 1443);
}

#[test]
fn envelope_concatenates_attack_decay_release() {
    // zero-length stages: one value each, in order 0.0, 1.0, sustain
    let mut env = Envelope::new(0, 0, 500_000_000, 0, 48000);
    assert_eq!(env.len(), 3);
    assert_eq!(env.advance(), Some(0));
    assert_eq!(env.advance(), Some(SCALE));
    assert_eq!(env.advance(), Some(500_000_000));
    assert_eq!(env.advance(), None);
    assert_eq!(env.advance(), None);
}

#[test]
fn square_triangle_sawtooth_are_exact() {
    // 0.25 cycles per tick: phases 0.25, 0.5, 0.75, 0.0
    let mut osc = Osc::new(SCALE, 4);
    osc.waveform = Waveform::Square;
    assert_eq!(osc.advance(0), -SCALE);
    assert_eq!(osc.advance(0), SCALE);
    assert_eq!(osc.advance(0), SCALE);
    assert_eq!(osc.advance(0), -SCALE);

    let mut osc = Osc::new(SCALE, 4);
    osc.waveform = Waveform::Triangle;
    assert_eq!(osc.advance(0), 0);
    assert_eq!(osc.advance(0), SCALE);
    assert_eq!(osc.advance(0), 0);
    assert_eq!(osc.advance(0), -SCALE);

    let mut osc = Osc::new(SCALE, 4);
    osc.waveform = Waveform::Sawtooth;
    assert_eq!(osc.advance(0), -500_000_000);
    assert_eq!(osc.advance(0), 0);
    assert_eq!(osc.advance(0), 500_000_000);
    assert_eq!(osc.advance(0), -SCALE);
}

#[test]
fn sine_and_white_noise_emit_the_supplied_value() {
    let mut osc = Osc::new(SCALE, 4);
    assert_eq!(osc.advance(123_456_789), 123_456_789);
    osc.waveform = Waveform::WhiteNoise;
    assert_eq!(osc.advance(-987_654_321), -987_654_321);
}

#[test]
fn brown_noise_walks_and_stays_clamped() {
    let mut osc = Osc::new(SCALE, 4);
    osc.waveform = Waveform::BrownNoise;
    // seed 0.1, draw 0.5: 0.1 + 0.5/5 - 0.1 = 0.1
    assert_eq!(osc.advance(500_000_000), 100_000_000);
    // draw 0: 0.1 - 0.1 = 0.0
    assert_eq!(osc.advance(0), 0);
    // repeated max draws walk up by 0.1 and clamp at 1.0
    for _ in 0..15 {
        osc.advance(999_999_999);
    }
    assert_eq!(osc.last_value, SCALE);
}

#[test]
fn oscillator_frequency_setter_reads_back() {
    let mut osc = Osc::new(440_000_000_000, 48000);
    assert_eq!(osc.get_frequency(), 440_000_000_000);
    osc.set_frequency(220_000_000_000);
    assert_eq!(osc.get_frequency(), 220_000_000_000);
}

#[test]
fn saturating_arithmetic_saturates() {
    assert_eq!(fx_add(i64::MAX, 1), i64::MAX);
    assert_eq!(fx_add(i64::MIN, -1), i64::MIN);
    assert_eq!(fx_add(1, 2), 3);
    assert_eq!(fx_mul(i64::MAX, i64::MAX), i64::MAX);
    assert_eq!(fx_mul(i64::MAX, -i64::MAX), i64::MIN);
    // 0.5 * 0.5 = 0.25
    assert_eq!(fx_mul(500_000_000, 500_000_000), 250_000_000);
}

#[test]
fn random_unit_stays_inside_the_cycle() {
    for _ in 0..1000 {
        let r = random_unit();
        assert!(0 <= r && r < SCALE);
    }
}
