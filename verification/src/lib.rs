//! # A monophonic software synthesizer core
//!
//! This crate is the sample-generation pipeline of a small monophonic
//! synthesizer meant to sit inside a host's audio callback: phase
//! accumulation ([`Phasor`]), waveform shaping ([`Osc`]), linear ramps
//! ([`Line`]), attack/decay/release envelopes ([`Envelope`]), additive
//! partials ([`Partial`]) and their mixing ([`Instrument`]), and the
//! top-level parameter bag and tick loop ([`MonoSynth`]).
//!
//! The host asks for frames in arbitrary batches; every component here is
//! a plain mutable state machine advanced one sample at a time, so the
//! stream continues seamlessly across call boundaries. All audio
//! quantities are exact decimal fixed-point numbers (see [`fixed`]):
//! billionths of a unit held in an `i64`. The two quantities no integer
//! pipeline can produce — a sine lookup and a random draw — enter as
//! per-tick arguments, so every function here is deterministic in its
//! inputs and verified exactly; [`random_unit`] is the crate's own
//! entropy source for the noise waveforms.

use vstd::prelude::*;

pub mod fixed;
pub mod utils;
pub mod phasor;
pub mod line;
pub mod envelope;
pub mod osc;
pub mod partial;
pub mod instrument;

use crate::fixed::{
    SCALE, HALF_SCALE, TENTH_SCALE, tdiv, fx_add_spec, fx_mul_spec, fx_add, fx_mul, tdiv_i128,
    lemma_tdiv_in_range,
};
use crate::phasor::{Phasor, next_phase_spec};
use crate::osc::{Osc, Waveform, ext_ok_spec, osc_out_spec, osc_next_spec, wave_sample_spec};
use crate::envelope::{Envelope, envelope_new_spec, env_out_spec, env_next_spec};
use vstd::arithmetic::div_mod::{lemma_div_pos_is_pos, lemma_multiply_divide_lt};

verus! {

/// One mono audio sample, in billionths of full scale.
pub type Sample = i64;

/// A frequency in Hz, in billionths of a Hz.
pub type Hz = i64;

/// An amplitude, in billionths of a unit.
pub type Amplitude = i64;

/// A position inside one waveform cycle, in billionths of a cycle,
/// always in `[0, SCALE)`.
pub type Phase = i64;

/// A duration in whole milliseconds.
pub type Millisecond = u32;

/// A sample rate in whole samples per second.
pub type SamplesPerSecond = u32;

/// A phase-warp breakpoint `(x, y)`: the warp maps phase `x` to phase
/// `y` and is linear on either side.
#[derive(Clone, Copy, PartialEq, Eq, Structural, Debug)]
pub struct Breakpoint {
    pub x: Phase,
    pub y: Phase,
}

/// A usable breakpoint sits strictly inside the cycle on the `x` axis —
/// at the edges the warp's slopes are divisions by zero — and maps into
/// the cycle on the `y` axis.
pub open spec fn bp_valid_spec(b: Breakpoint) -> bool {
    &&& 0 < b.x < SCALE
    &&& 0 <= b.y < SCALE
}

/// The piecewise-linear phase warp through breakpoint `(x, y)`: below
/// `x` the phase is scaled by `y / x`; above, it is mapped linearly
/// from `[x, 1)` onto `[y, 1)`.
pub open spec fn bend_warp_spec(p: int, x: int, y: int) -> int {
    if p < x {
        tdiv(p * y, x)
    } else {
        y + tdiv((p - x) * (SCALE - y), (SCALE as int) - x)
    }
}

/// The warp keeps every phase inside the cycle.
pub proof fn lemma_bend_warp_in_cycle(p: int, x: int, y: int)
    requires
        0 <= p < SCALE,
        0 < x < SCALE,
        0 <= y < SCALE,
    ensures
        0 <= bend_warp_spec(p, x, y) < SCALE,
{
    if p < x {
        assert(0 <= p * y && p * y < x * (SCALE as int)) by (nonlinear_arith)
            requires
                0 <= p < x,
                0 <= y < SCALE as int,
        ;
        lemma_div_pos_is_pos(p * y, x);
        lemma_multiply_divide_lt(p * y, x, SCALE as int);
    } else {
        let d: int = (p - x) * ((SCALE as int) - y);
        assert(0 <= d && d < ((SCALE as int) - x) * ((SCALE as int) - y)) by (nonlinear_arith)
            requires
                d == (p - x) * ((SCALE as int) - y),
                0 <= p - x < (SCALE as int) - x,
                0 < (SCALE as int) - y,
        ;
        lemma_div_pos_is_pos(d, (SCALE as int) - x);
        lemma_multiply_divide_lt(d, (SCALE as int) - x, (SCALE as int) - y);
    }
}

/// The top-level monophonic voice: the parameter bag the host mutates
/// between frame requests, the carrier oscillator, the ADSR envelope,
/// and the auxiliary sine oscillator for frequency modulation. All
/// parameter setters are plain synchronous mutations, visible to the
/// very next tick; nothing is batched or smoothed.
pub struct MonoSynth {
    pub osc: Osc,
    pub sample_rate: SamplesPerSecond,
    pub frequency: Hz,
    pub apply_bend: bool,
    pub phasor_bend: Breakpoint,
    pub continuous: bool,
    pub duration: Millisecond,
    pub envelope: Envelope,
    pub cutoff: Hz,
    pub frequency_modulation: bool,
    pub fm_frequency: Hz,
    pub fm_depth: Amplitude,
    pub attack: Millisecond,
    pub decay: Millisecond,
    pub sustain: Amplitude,
    pub release: Millisecond,
    pub fm_osc: Osc,
}

/// The synth `MonoSynth::new` builds: a 440 Hz sine voice at 48 kHz
/// with a gentle default envelope, modulation off, bend off.
pub open spec fn synth_new_spec() -> MonoSynth {
    MonoSynth {
        osc: (Osc {
            phasor: (Phasor { phase: 0, frequency: 440_000_000_000, sample_rate: 48000 }),
            waveform: Waveform::Sine,
            last_value: TENTH_SCALE,
        }),
        sample_rate: 48000,
        frequency: 440_000_000_000,
        apply_bend: false,
        phasor_bend: (Breakpoint { x: 0, y: 0 }),
        continuous: true,
        duration: 0,
        envelope: envelope_new_spec(30, 500, HALF_SCALE, 1000, 48000),
        cutoff: 0,
        frequency_modulation: false,
        fm_frequency: 10_000_000_000,
        fm_depth: TENTH_SCALE,
        attack: 10,
        decay: 100,
        sustain: HALF_SCALE,
        release: 500,
        fm_osc: (Osc {
            phasor: (Phasor { phase: 0, frequency: 880_000_000_000, sample_rate: 48000 }),
            waveform: Waveform::Sine,
            last_value: TENTH_SCALE,
        }),
    }
}

/// The synth with another carrier waveform.
pub open spec fn with_waveform_spec(s: MonoSynth, w: Waveform) -> MonoSynth {
    MonoSynth { osc: (Osc { waveform: w, ..s.osc }), ..s }
}

/// The synth with another carrier frequency, mirrored into the bag.
pub open spec fn with_frequency_spec(s: MonoSynth, f: Hz) -> MonoSynth {
    MonoSynth { frequency: f, osc: s.osc.with_frequency_spec(f), ..s }
}

/// The synth with continuous play switched.
pub open spec fn with_continuous_spec(s: MonoSynth, state: bool) -> MonoSynth {
    MonoSynth { continuous: state, ..s }
}

/// The synth with another bend breakpoint — taken only when the
/// breakpoint is usable, else left as it was: a degenerate breakpoint
/// would put a division by zero on the audio path.
pub open spec fn with_phasor_bend_spec(s: MonoSynth, b: Breakpoint) -> MonoSynth {
    if bp_valid_spec(b) {
        MonoSynth { phasor_bend: b, ..s }
    } else {
        s
    }
}

/// The synth with bending switched.
pub open spec fn with_apply_bend_spec(s: MonoSynth, b: bool) -> MonoSynth {
    MonoSynth { apply_bend: b, ..s }
}

/// The synth with another sample rate recorded. Ramps and envelopes
/// already built keep their sizes; the new rate takes effect on what is
/// built after it.
pub open spec fn with_sample_rate_spec(s: MonoSynth, r: SamplesPerSecond) -> MonoSynth {
    MonoSynth { sample_rate: r, ..s }
}

/// The synth with frequency modulation switched.
pub open spec fn with_frequency_modulation_spec(s: MonoSynth, b: bool) -> MonoSynth {
    MonoSynth { frequency_modulation: b, ..s }
}

/// The synth with another modulator frequency.
pub open spec fn with_fm_frequency_spec(s: MonoSynth, f: Hz) -> MonoSynth {
    MonoSynth { fm_osc: s.fm_osc.with_frequency_spec(f), ..s }
}

/// The synth with another modulation depth.
pub open spec fn with_fm_depth_spec(s: MonoSynth, d: Amplitude) -> MonoSynth {
    MonoSynth { fm_depth: d, ..s }
}

/// The synth with another stored attack duration.
pub open spec fn with_attack_spec(s: MonoSynth, v: Millisecond) -> MonoSynth {
    MonoSynth { attack: v, ..s }
}

/// The synth with another stored decay duration.
pub open spec fn with_decay_spec(s: MonoSynth, v: Millisecond) -> MonoSynth {
    MonoSynth { decay: v, ..s }
}

/// The synth with another stored sustain level.
pub open spec fn with_sustain_spec(s: MonoSynth, v: Amplitude) -> MonoSynth {
    MonoSynth { sustain: v, ..s }
}

/// The synth with another stored release duration.
pub open spec fn with_release_spec(s: MonoSynth, v: Millisecond) -> MonoSynth {
    MonoSynth { release: v, ..s }
}

/// The synth with a fresh envelope built from the given stages at the
/// synth's current sample rate.
pub open spec fn with_envelope_spec(
    s: MonoSynth,
    attack: Millisecond,
    decay: Millisecond,
    sustain: Amplitude,
    release: Millisecond,
) -> MonoSynth {
    MonoSynth { envelope: envelope_new_spec(attack, decay, sustain, release, s.sample_rate), ..s }
}

/// The synth after a note-on: a fresh envelope from the stored ADSR
/// parameters, its position at zero whatever the old envelope held.
pub open spec fn triggered_spec(s: MonoSynth) -> MonoSynth {
    MonoSynth {
        envelope: envelope_new_spec(s.attack, s.decay, s.sustain, s.release, s.sample_rate),
        ..s
    }
}

/// What the modulator adds to the carrier frequency this tick. The
/// modulator is a sine oscillator, so its sample is the supplied sine
/// evaluation `fm_ext`.
pub open spec fn fm_value_spec(s: MonoSynth, fm_ext: int) -> int {
    fx_mul_spec(osc_out_spec(s.fm_osc, fm_ext), s.fm_depth as int)
}

/// The carrier frequency this tick: modulated strictly before the
/// carrier's own phase advance when modulation is on, untouched
/// otherwise.
pub open spec fn carrier_freq_spec(s: MonoSynth, fm_ext: int) -> int {
    if s.frequency_modulation {
        fx_add_spec(s.osc.phasor.frequency as int, fm_value_spec(s, fm_ext))
    } else {
        s.osc.phasor.frequency as int
    }
}

/// The carrier phase this tick: advanced under the tick's carrier
/// frequency, then warped through the bend breakpoint when bending is
/// on and the breakpoint is usable.
pub open spec fn carrier_phase_spec(s: MonoSynth, fm_ext: int) -> int {
    let raw = next_phase_spec(
        s.osc.phasor.phase as int,
        carrier_freq_spec(s, fm_ext),
        s.osc.phasor.sample_rate as int,
    );
    if s.apply_bend && bp_valid_spec(s.phasor_bend) {
        bend_warp_spec(raw, s.phasor_bend.x as int, s.phasor_bend.y as int)
    } else {
        raw
    }
}

/// The raw carrier sample this tick, before the envelope.
pub open spec fn step_raw_spec(s: MonoSynth, fm_ext: int, osc_ext: int) -> int {
    wave_sample_spec(
        s.osc.waveform,
        carrier_phase_spec(s, fm_ext),
        s.osc.last_value as int,
        osc_ext,
    )
}

/// The sample one tick emits: the raw carrier sample, shaped by the
/// next envelope amplitude when play is not continuous — an exhausted
/// envelope shapes to silence.
pub open spec fn step_out_spec(s: MonoSynth, fm_ext: int, osc_ext: int) -> int {
    if s.continuous {
        step_raw_spec(s, fm_ext, osc_ext)
    } else {
        fx_mul_spec(
            step_raw_spec(s, fm_ext, osc_ext),
            match env_out_spec(s.envelope) {
                Some(a) => a as int,
                None => 0,
            },
        )
    }
}

/// The state one tick moves the synth to: the modulator advances when
/// modulation is on, the carrier takes the modulated frequency and the
/// warped phase, its walk memory takes the raw sample, and the
/// envelope steps when play is not continuous.
pub open spec fn step_next_spec(s: MonoSynth, fm_ext: int, osc_ext: int) -> MonoSynth {
    MonoSynth {
        fm_osc: if s.frequency_modulation {
            osc_next_spec(s.fm_osc, fm_ext)
        } else {
            s.fm_osc
        },
        osc: (Osc {
            phasor: (Phasor {
                phase: carrier_phase_spec(s, fm_ext) as i64,
                frequency: carrier_freq_spec(s, fm_ext) as i64,
                sample_rate: s.osc.phasor.sample_rate,
            }),
            waveform: s.osc.waveform,
            last_value: step_raw_spec(s, fm_ext, osc_ext) as i64,
        }),
        envelope: if s.continuous {
            s.envelope
        } else {
            env_next_spec(s.envelope)
        },
        ..s
    }
}

impl MonoSynth {
    /// Both oscillators are sound and the modulator is the sine
    /// oscillator the design calls for.
    pub open spec fn wf(&self) -> bool {
        &&& self.osc.wf()
        &&& self.fm_osc.wf()
        &&& self.fm_osc.waveform == Waveform::Sine
    }

    /// A fresh voice with the default parameters.
    pub fn new() -> (s: MonoSynth)
        ensures
            s == synth_new_spec(),
            s.wf(),
    {
        let freq: Hz = 440 * SCALE;
        let sprt: SamplesPerSecond = 48000;
        MonoSynth {
            osc: Osc::new(freq, sprt),
            sample_rate: sprt,
            frequency: freq,
            apply_bend: false,
            phasor_bend: Breakpoint { x: 0, y: 0 },
            continuous: true,
            duration: 0,
            envelope: Envelope::new(30, 500, HALF_SCALE, 1000, sprt),
            cutoff: 0,
            frequency_modulation: false,
            fm_frequency: 10_000_000_000,
            fm_depth: TENTH_SCALE,
            fm_osc: Osc::new(freq * 2, sprt),
            attack: 10,
            decay: 100,
            sustain: HALF_SCALE,
            release: 500,
        }
    }

    /// Switch the carrier to a sine wave.
    pub fn sine(&mut self)
        ensures
            *final(self) == with_waveform_spec(*old(self), Waveform::Sine),
    {
        self.osc.waveform = Waveform::Sine;
    }

    /// Switch the carrier to a square wave.
    pub fn square(&mut self)
        ensures
            *final(self) == with_waveform_spec(*old(self), Waveform::Square),
    {
        self.osc.waveform = Waveform::Square;
    }

    /// Switch the carrier to a triangle wave.
    pub fn triangle(&mut self)
        ensures
            *final(self) == with_waveform_spec(*old(self), Waveform::Triangle),
    {
        self.osc.waveform = Waveform::Triangle;
    }

    /// Switch the carrier to a sawtooth wave.
    pub fn sawtooth(&mut self)
        ensures
            *final(self) == with_waveform_spec(*old(self), Waveform::Sawtooth),
    {
        self.osc.waveform = Waveform::Sawtooth;
    }

    /// Switch the carrier to the white-noise formula.
    pub fn white_noise(&mut self)
        ensures
            *final(self) == with_waveform_spec(*old(self), Waveform::WhiteNoise),
    {
        self.osc.waveform = Waveform::WhiteNoise;
    }

    /// Switch the carrier to the brown-noise walk.
    pub fn brown_noise(&mut self)
        ensures
            *final(self) == with_waveform_spec(*old(self), Waveform::BrownNoise),
    {
        self.osc.waveform = Waveform::BrownNoise;
    }

    /// Set the note frequency; it reaches the carrier on the very next
    /// tick.
    pub fn frequency(&mut self, frequency: Hz)
        ensures
            *final(self) == with_frequency_spec(*old(self), frequency),
    {
        self.frequency = frequency;
        self.osc.set_frequency(frequency);
    }

    /// Choose between continuous play and envelope-shaped one-shot
    /// play.
    pub fn continuous(&mut self, state: bool)
        ensures
            *final(self) == with_continuous_spec(*old(self), state),
    {
        self.continuous = state;
    }

    /// Store a bend breakpoint. A degenerate breakpoint — on the edge
    /// of the cycle, where the warp's slope divides by zero — is
    /// rejected and the stored one kept, so the audio path never
    /// faults.
    pub fn phasor_bend(&mut self, phasor_bend: Breakpoint)
        ensures
            *final(self) == with_phasor_bend_spec(*old(self), phasor_bend),
    {
        if 0 < phasor_bend.x && phasor_bend.x < SCALE && 0 <= phasor_bend.y
            && phasor_bend.y < SCALE {
            self.phasor_bend = phasor_bend;
        }
    }

    /// Switch phase bending on or off.
    pub fn apply_bend(&mut self, apply_bend: bool)
        ensures
            *final(self) == with_apply_bend_spec(*old(self), apply_bend),
    {
        self.apply_bend = apply_bend;
    }

    /// Record the host's sample rate for everything built from now on;
    /// ramps and envelopes already built are deliberately not rescaled.
    pub fn set_sample_rate(&mut self, sample_rate: SamplesPerSecond)
        ensures
            *final(self) == with_sample_rate_spec(*old(self), sample_rate),
    {
        self.sample_rate = sample_rate;
    }

    /// Switch frequency modulation on or off.
    pub fn frequency_modulation(&mut self, frequency_modulation: bool)
        ensures
            *final(self) == with_frequency_modulation_spec(*old(self), frequency_modulation),
    {
        self.frequency_modulation = frequency_modulation;
    }

    /// Set the modulator's frequency. The modulator's own phasor
    /// holds the authoritative value; the bag's `fm_frequency` field
    /// only records the default the voice started from.
    pub fn fm_frequency(&mut self, fm_frequency: Hz)
        ensures
            *final(self) == with_fm_frequency_spec(*old(self), fm_frequency),
    {
        self.fm_osc.set_frequency(fm_frequency);
    }

    /// Set the modulation depth.
    pub fn fm_depth(&mut self, fm_depth: Amplitude)
        ensures
            *final(self) == with_fm_depth_spec(*old(self), fm_depth),
    {
        self.fm_depth = fm_depth;
    }

    /// Store the attack duration for the next trigger.
    pub fn set_attack(&mut self, attack: Millisecond)
        ensures
            *final(self) == with_attack_spec(*old(self), attack),
    {
        self.attack = attack;
    }

    /// Store the decay duration for the next trigger.
    pub fn set_decay(&mut self, decay: Millisecond)
        ensures
            *final(self) == with_decay_spec(*old(self), decay),
    {
        self.decay = decay;
    }

    /// Store the sustain level for the next trigger.
    pub fn set_sustain(&mut self, sustain: Amplitude)
        ensures
            *final(self) == with_sustain_spec(*old(self), sustain),
    {
        self.sustain = sustain;
    }

    /// Store the release duration for the next trigger.
    pub fn set_release(&mut self, release: Millisecond)
        ensures
            *final(self) == with_release_spec(*old(self), release),
    {
        self.release = release;
    }

    /// Replace the envelope with a fresh one built from the given
    /// stages at the current sample rate, starting at position zero.
    pub fn envelope(
        &mut self,
        attack: Millisecond,
        decay: Millisecond,
        sustain: Amplitude,
        release: Millisecond,
    )
        ensures
            *final(self) == with_envelope_spec(*old(self), attack, decay, sustain, release),
    {
        self.envelope = Envelope::new(attack, decay, sustain, release, self.sample_rate);
    }

    /// Note-on: rebuild the envelope from the stored ADSR parameters.
    /// Whatever position the old envelope had reached is discarded.
    pub fn trigger(&mut self)
        ensures
            *final(self) == triggered_spec(*old(self)),
    {
        self.envelope = Envelope::new(
            self.attack,
            self.decay,
            self.sustain,
            self.release,
            self.sample_rate,
        );
    }

    /// The phase the modulator will stand on after this tick's advance
    /// — the host evaluates the sine there and hands the value to
    /// [`MonoSynth::step`].
    pub fn next_fm_phase(&self) -> (p: Phase)
        ensures
            p == next_phase_spec(
                self.fm_osc.phasor.phase as int,
                self.fm_osc.phasor.frequency as int,
                self.fm_osc.phasor.sample_rate as int,
            ),
            0 <= p < SCALE,
    {
        peek_phase(&self.fm_osc.phasor)
    }

    /// The warped phase the carrier will stand on this tick, given the
    /// modulator's sine value — the host evaluates the carrier's sine
    /// there when the waveform asks for one.
    pub fn next_carrier_phase(&self, fm_ext: Sample) -> (p: Phase)
        requires
            self.wf(),
            -SCALE <= fm_ext <= SCALE,
        ensures
            p == carrier_phase_spec(*self, fm_ext as int),
            0 <= p < SCALE,
    {
        let freq: Hz = if self.frequency_modulation {
            fx_add(self.osc.phasor.frequency, fx_mul(fm_ext, self.fm_depth))
        } else {
            self.osc.phasor.frequency
        };
        let raw: Phase = peek_phase(
            &Phasor {
                phase: self.osc.phasor.phase,
                frequency: freq,
                sample_rate: self.osc.phasor.sample_rate,
            },
        );
        if self.apply_bend && 0 < self.phasor_bend.x && self.phasor_bend.x < SCALE
            && 0 <= self.phasor_bend.y && self.phasor_bend.y < SCALE {
            bend_warp(raw, self.phasor_bend.x, self.phasor_bend.y)
        } else {
            raw
        }
    }

    /// One tick of the whole voice: modulate the carrier's frequency
    /// (strictly before its phase advance), advance and warp the
    /// phase, shape the sample, and apply the envelope when play is
    /// not continuous. `fm_ext` is the modulator's sine value at
    /// [`MonoSynth::next_fm_phase`]; `osc_ext` is the carrier
    /// waveform's outside value at [`MonoSynth::next_carrier_phase`],
    /// per [`ext_ok_spec`].
    pub fn step(&mut self, fm_ext: Sample, osc_ext: Sample) -> (s: Sample)
        requires
            old(self).wf(),
            -SCALE <= fm_ext <= SCALE,
            ext_ok_spec(old(self).osc.waveform, osc_ext as int),
        ensures
            s == step_out_spec(*old(self), fm_ext as int, osc_ext as int),
            *final(self) == step_next_spec(*old(self), fm_ext as int, osc_ext as int),
            final(self).wf(),
    {
        if self.frequency_modulation {
            let m: Sample = self.fm_osc.advance(fm_ext);
            let modulation_value: Sample = fx_mul(m, self.fm_depth);
            let f: Hz = fx_add(self.osc.get_frequency(), modulation_value);
            self.osc.set_frequency(f);
        }
        let p: Phase = self.osc.phasor.advance();
        let p2: Phase = if self.apply_bend && 0 < self.phasor_bend.x
            && self.phasor_bend.x < SCALE && 0 <= self.phasor_bend.y
            && self.phasor_bend.y < SCALE {
            bend_warp(p, self.phasor_bend.x, self.phasor_bend.y)
        } else {
            p
        };
        self.osc.phasor.phase = p2;
        let mut sample: Sample = self.osc.emit_at(p2, osc_ext);
        if !self.continuous {
            let a: Amplitude = match self.envelope.advance() {
                Some(v) => v,
                None => 0,
            };
            sample = fx_mul(sample, a);
        }
        sample
    }
}

/// The synth state after `n` ticks driven with no outside values.
pub open spec fn frames_next_spec(s: MonoSynth, n: nat) -> MonoSynth
    decreases n,
{
    if n == 0 {
        s
    } else {
        step_next_spec(frames_next_spec(s, (n - 1) as nat), 0, 0)
    }
}

/// The `n` samples those ticks emit, in order.
pub open spec fn frames_seq_spec(s: MonoSynth, n: nat) -> Seq<i64>
    decreases n,
{
    if n == 0 {
        Seq::<i64>::empty()
    } else {
        frames_seq_spec(s, (n - 1) as nat).push(
            step_out_spec(frames_next_spec(s, (n - 1) as nat), 0, 0) as i64,
        )
    }
}

impl MonoSynth {
    /// Produce a whole buffer of frames at once: the bulk interface for
    /// the waveforms that are pure integer functions of the phase, with
    /// modulation off — the ticks then take no outside values at all.
    /// A sine or noise carrier, or a modulated one, is driven tick by
    /// tick through [`MonoSynth::step`] instead, with the host
    /// supplying each tick's sine or draw.
    pub fn frames(&mut self, samples: u32) -> (out: Vec<Sample>)
        requires
            old(self).wf(),
            old(self).osc.waveform == Waveform::Square
                || old(self).osc.waveform == Waveform::Triangle
                || old(self).osc.waveform == Waveform::Sawtooth,
            !old(self).frequency_modulation,
        ensures
            out@ == frames_seq_spec(*old(self), samples as nat),
            *final(self) == frames_next_spec(*old(self), samples as nat),
            final(self).wf(),
    {
        let mut out: Vec<Sample> = Vec::new();
        let mut k: u32 = 0;
        while k < samples
            invariant
                k <= samples,
                *self == frames_next_spec(*old(self), k as nat),
                out@ == frames_seq_spec(*old(self), k as nat),
                self.wf(),
            decreases samples - k,
        {
            let v: Sample = self.step(0, 0);
            out.push(v);
            k = k + 1;
        }
        out
    }
}

/// Calling a parameter setter with the value it already holds leaves
/// the synth exactly as it was — and every tick's output and next
/// state are functions of the synth's state alone, so no subsequent
/// output changes either. For the note frequency the bag and the
/// carrier must agree (modulation moves the carrier's frequency behind
/// the bag's back; re-setting the same bag value then genuinely resets
/// the carrier); for the envelope builder, holding the value means the
/// current envelope is the one those stages build.
pub proof fn lemma_setters_idempotent(
    s: MonoSynth,
    attack: Millisecond,
    decay: Millisecond,
    sustain: Amplitude,
    release: Millisecond,
)
    ensures
        with_waveform_spec(s, s.osc.waveform) == s,
        s.osc.phasor.frequency == s.frequency ==> with_frequency_spec(s, s.frequency) == s,
        with_continuous_spec(s, s.continuous) == s,
        with_phasor_bend_spec(s, s.phasor_bend) == s,
        with_apply_bend_spec(s, s.apply_bend) == s,
        with_sample_rate_spec(s, s.sample_rate) == s,
        with_frequency_modulation_spec(s, s.frequency_modulation) == s,
        with_fm_frequency_spec(s, s.fm_osc.phasor.frequency) == s,
        with_fm_depth_spec(s, s.fm_depth) == s,
        with_attack_spec(s, s.attack) == s,
        with_decay_spec(s, s.decay) == s,
        with_sustain_spec(s, s.sustain) == s,
        with_release_spec(s, s.release) == s,
        s.envelope == envelope_new_spec(attack, decay, sustain, release, s.sample_rate)
            ==> with_envelope_spec(s, attack, decay, sustain, release) == s,
{
}

/// Re-triggering resets the envelope to position zero with no memory
/// of what came before: the fresh envelope starts every stage at index
/// zero, and two synths sharing ADSR parameters and sample rate
/// trigger to identical envelopes whatever their old envelopes held or
/// how far those had advanced.
pub proof fn lemma_trigger_resets(s1: MonoSynth, s2: MonoSynth)
    ensures
        triggered_spec(s1).envelope.attack.index == 0,
        triggered_spec(s1).envelope.decay.index == 0,
        triggered_spec(s1).envelope.release.index == 0,
        s1.attack == s2.attack && s1.decay == s2.decay && s1.sustain == s2.sustain
            && s1.release == s2.release && s1.sample_rate == s2.sample_rate
            ==> triggered_spec(s1).envelope == triggered_spec(s2).envelope,
{
}

/// The phase a phasor will stand on after its next advance, computed
/// without moving it.
pub fn peek_phase(phasor: &Phasor) -> (p: Phase)
    ensures
        p == next_phase_spec(
            phasor.phase as int,
            phasor.frequency as int,
            phasor.sample_rate as int,
        ),
        0 <= p < SCALE,
{
    let inc: i64 = if phasor.sample_rate == 0 {
        0
    } else {
        proof {
            lemma_tdiv_in_range(phasor.frequency as int, phasor.sample_rate as int);
        }
        tdiv_i128(phasor.frequency as i128, phasor.sample_rate as i128) as i64
    };
    fixed::emod_i128((phasor.phase as i128) + (inc as i128), SCALE as i128) as i64
}

/// Warp one phase through a valid breakpoint.
pub fn bend_warp(p: Phase, x: Phase, y: Phase) -> (r: Phase)
    requires
        0 <= p < SCALE,
        0 < x < SCALE,
        0 <= y < SCALE,
    ensures
        r == bend_warp_spec(p as int, x as int, y as int),
        0 <= r < SCALE,
{
    proof {
        lemma_bend_warp_in_cycle(p as int, x as int, y as int);
        fixed::lemma_i64_mul_fits(p as int, y as int);
        fixed::lemma_i64_mul_fits((p - x) as int, (SCALE - y) as int);
    }
    if p < x {
        tdiv_i128((p as i128) * (y as i128), x as i128) as i64
    } else {
        y + (tdiv_i128(((p - x) as i128) * ((SCALE - y) as i128), (SCALE - x) as i128) as i64)
    }
}

} // verus!
