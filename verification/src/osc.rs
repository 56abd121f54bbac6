//! Waveform shaping: phase in, sample out.

use vstd::prelude::*;
use vstd::arithmetic::div_mod::{lemma_div_pos_is_pos, lemma_multiply_divide_lt};
use vstd::arithmetic::mul::lemma_mul_upper_bound;
use crate::fixed::{SCALE, HALF_SCALE, TENTH_SCALE, tdiv, clamp_spec, fx_clamp};
use crate::phasor::{Phasor, next_phase_spec};
use crate::{Hz, Phase, Sample, SamplesPerSecond};

verus! {

/// The waveforms the oscillator can generate.
#[derive(Clone, Copy, PartialEq, Eq, Structural, Debug)]
pub enum Waveform {
    Sine,
    Square,
    Triangle,
    Sawtooth,
    WhiteNoise,
    BrownNoise,
}

/// What a waveform asks of the per-tick outside value `ext`. The three
/// piecewise-linear shapes are pure integer functions of the phase and
/// ignore `ext`. A sine lookup is no integer function, so `Sine` takes
/// the value `sin(2π · phase)` from the caller, and `WhiteNoise` — by
/// the preserved historic formula `sin(random)` — takes a sine of a
/// uniform draw; both are sine outputs, bounded by one in magnitude.
/// `BrownNoise` takes the uniform draw itself, in `[0, 1)`.
pub open spec fn ext_ok_spec(w: Waveform, ext: int) -> bool {
    match w {
        Waveform::Sine => -SCALE <= ext <= SCALE,
        Waveform::WhiteNoise => -SCALE <= ext <= SCALE,
        Waveform::BrownNoise => 0 <= ext < SCALE,
        _ => true,
    }
}

/// The sample a waveform emits at `phase`, where `last` is the sample
/// emitted one tick earlier (the brown-noise walk's memory) and `ext`
/// the per-tick outside value described by [`ext_ok_spec`]:
/// - `Sine`: the supplied `sin(2π · phase)`;
/// - `Square`: −1 below half phase, else 1;
/// - `Triangle`: `4·phase − 1` below half phase, else `4·(1−phase) − 1`;
/// - `Sawtooth`: `2·phase − 1`;
/// - `WhiteNoise`: the supplied `sin(random)`;
/// - `BrownNoise`: the walk `last + draw·0.2 − 0.1`, clamped to `[−1, 1]`.
pub open spec fn wave_sample_spec(w: Waveform, phase: int, last: int, ext: int) -> int {
    match w {
        Waveform::Sine => ext,
        Waveform::Square => if phase < HALF_SCALE {
            -SCALE as int
        } else {
            SCALE as int
        },
        Waveform::Triangle => if phase < HALF_SCALE {
            4 * phase - SCALE
        } else {
            4 * (SCALE - phase) - SCALE
        },
        Waveform::Sawtooth => 2 * phase - SCALE,
        Waveform::WhiteNoise => ext,
        Waveform::BrownNoise => clamp_spec(
            last + tdiv(ext, 5) - TENTH_SCALE,
            -SCALE as int,
            SCALE as int,
        ),
    }
}

/// Every waveform's output is bounded by one in magnitude: the shaped
/// waves by construction, the noise waves because a sine value is and
/// the brown walk clamps.
pub proof fn lemma_wave_sample_bounded(w: Waveform, phase: int, last: int, ext: int)
    requires
        0 <= phase < SCALE,
        ext_ok_spec(w, ext),
    ensures
        -SCALE <= wave_sample_spec(w, phase, last, ext) <= SCALE,
{
}

/// The sample an oscillator emits in one tick: its waveform shaped at
/// the freshly advanced phase, with the walk memory and the tick's
/// outside value in hand.
pub open spec fn osc_out_spec(o: Osc, ext: int) -> int {
    wave_sample_spec(
        o.waveform,
        next_phase_spec(o.phasor.phase as int, o.phasor.frequency as int, o.phasor.sample_rate as int),
        o.last_value as int,
        ext,
    )
}

/// The state an oscillator moves to in one tick: the phasor advances
/// and the emitted sample becomes the new walk memory.
pub open spec fn osc_next_spec(o: Osc, ext: int) -> Osc {
    Osc {
        phasor: (Phasor {
            phase: next_phase_spec(
                o.phasor.phase as int,
                o.phasor.frequency as int,
                o.phasor.sample_rate as int,
            ) as i64,
            ..o.phasor
        }),
        last_value: osc_out_spec(o, ext) as i64,
        ..o
    }
}

/// One oscillator: a phasor driving one waveform shape. `last_value`
/// holds the sample emitted one tick ago; it is kept solely to seed the
/// brown-noise random walk.
pub struct Osc {
    pub phasor: Phasor,
    pub waveform: Waveform,
    pub last_value: Sample,
}

impl Osc {
    /// The phase sits inside one cycle and the walk memory inside
    /// `[-1, 1]`.
    pub open spec fn wf(&self) -> bool {
        &&& self.phasor.wf()
        &&& -SCALE <= self.last_value <= SCALE
    }

    /// The same oscillator with another frequency.
    pub open spec fn with_frequency_spec(&self, frequency: i64) -> Osc {
        Osc {
            phasor: (Phasor { frequency, ..self.phasor }),
            ..*self
        }
    }

    /// A fresh sine oscillator, seeded with the small nonzero walk
    /// memory the original voice starts from.
    pub fn new(frequency: Hz, sample_rate: SamplesPerSecond) -> (o: Osc)
        ensures
            o.phasor.phase == 0,
            o.phasor.frequency == frequency,
            o.phasor.sample_rate == sample_rate,
            o.waveform == Waveform::Sine,
            o.last_value == TENTH_SCALE,
            o.wf(),
    {
        Osc { phasor: Phasor::new(frequency, sample_rate), waveform: Waveform::Sine, last_value: TENTH_SCALE }
    }

    /// Read the oscillator's frequency.
    pub fn get_frequency(&self) -> (f: Hz)
        ensures
            f == self.phasor.frequency,
    {
        self.phasor.frequency
    }

    /// Change the oscillator's frequency; the change takes effect on the
    /// very next phase advance, with no smoothing.
    pub fn set_frequency(&mut self, frequency: Hz)
        ensures
            *final(self) == old(self).with_frequency_spec(frequency),
    {
        self.phasor.frequency = frequency;
    }

    /// Shape a sample from an already-chosen phase, updating the walk
    /// memory but leaving the phasor alone. This is the waveform lookup
    /// that [`Osc::advance`] applies to the freshly advanced phase; a
    /// caller that warps the phase first applies it to the warped one.
    pub fn emit_at(&mut self, phase: Phase, ext: Sample) -> (s: Sample)
        requires
            old(self).wf(),
            0 <= phase < SCALE,
            ext_ok_spec(old(self).waveform, ext as int),
        ensures
            s == wave_sample_spec(old(self).waveform, phase as int, old(self).last_value as int, ext as int),
            final(self).phasor == old(self).phasor,
            final(self).waveform == old(self).waveform,
            final(self).last_value == s,
            -SCALE <= s <= SCALE,
            final(self).wf(),
    {
        let s: Sample = match self.waveform {
            Waveform::Sine => ext,
            Waveform::Square => {
                if phase < HALF_SCALE {
                    -SCALE
                } else {
                    SCALE
                }
            },
            Waveform::Triangle => {
                if phase < HALF_SCALE {
                    4 * phase - SCALE
                } else {
                    4 * (SCALE - phase) - SCALE
                }
            },
            Waveform::Sawtooth => 2 * phase - SCALE,
            Waveform::WhiteNoise => ext,
            Waveform::BrownNoise => {
                let step: i64 = ((ext as u64) / 5) as i64;
                proof {
                    lemma_div_pos_is_pos(ext as int, 5);
                }
                fx_clamp(self.last_value + step - TENTH_SCALE, -SCALE, SCALE)
            },
        };
        self.last_value = s;
        s
    }

    /// Advance the phasor one tick, then shape the new phase into a
    /// sample. `ext` is the tick's outside value per [`ext_ok_spec`].
    pub fn advance(&mut self, ext: Sample) -> (s: Sample)
        requires
            old(self).wf(),
            ext_ok_spec(old(self).waveform, ext as int),
        ensures
            s == osc_out_spec(*old(self), ext as int),
            *final(self) == osc_next_spec(*old(self), ext as int),
            -SCALE <= s <= SCALE,
            final(self).wf(),
    {
        let p: Phase = self.phasor.advance();
        self.emit_at(p, ext)
    }

    /// The next sample; the panic-free face of [`Osc::advance`] the
    /// host calls.
    pub fn sample(&mut self, ext: Sample) -> (s: Sample)
        requires
            old(self).wf(),
            ext_ok_spec(old(self).waveform, ext as int),
        ensures
            s == osc_out_spec(*old(self), ext as int),
            *final(self) == osc_next_spec(*old(self), ext as int),
            -SCALE <= s <= SCALE,
            final(self).wf(),
    {
        self.advance(ext)
    }
}

/// Relies on `rand::random`: draws a value of the requested type from
/// the thread-local generator. Nothing can be promised of a random
/// value, so nothing is.
pub assume_specification<T>[ rand::random::<T> ]() -> (r: T)
    where
        rand::distributions::Standard: rand::distributions::Distribution<T>,
;

/// A uniform random draw in `[0, 1)`: the crate's injectable entropy
/// source for the noise waveforms. The 32 drawn bits are mapped onto
/// billionths of a unit; only the range is promised, never the value.
pub fn random_unit() -> (r: Sample)
    ensures
        0 <= r < SCALE,
{
    let u: u32 = rand::random::<u32>();
    proof {
        lemma_mul_upper_bound(u as int, 0xffff_ffff, SCALE as int, SCALE as int);
        lemma_div_pos_is_pos((u as int) * (SCALE as int), 0x1_0000_0000);
        lemma_multiply_divide_lt((u as int) * (SCALE as int), SCALE as int, 0x1_0000_0000);
    }
    let num: u64 = (u as u64) * (SCALE as u64);
    (num / 0x1_0000_0000u64) as i64
}

} // verus!
