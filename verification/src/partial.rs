//! One additive-synthesis overtone.

use vstd::prelude::*;
use crate::fixed::{
    SCALE, TENTH_SCALE, tdiv, clamp_spec, fx_mul_spec, fx_add_spec, fx_mul, fx_add, tdiv_i128,
    lemma_i64_mul_fits,
};
use crate::line::{Line, line_val_spec, line_out_spec, line_next_spec, lemma_line_val_endpoints};
use crate::osc::{Osc, Waveform, ext_ok_spec, osc_out_spec, osc_next_spec};
use crate::phasor::Phasor;
use crate::utils::ms_to_samples_spec;
use crate::{Amplitude, Hz, Millisecond, Sample, SamplesPerSecond};

verus! {

/// How many samples the short anti-click attack ramp of every partial
/// spans.
pub const PARTIAL_ATTACK_SAMPLES: u32 = 5;

/// The oscillator frequency of a partial:
/// `base_frequency * relative_frequency + detune`.
pub open spec fn partial_freq_spec(
    base_frequency: int,
    relative_frequency: int,
    detune: int,
) -> int {
    fx_add_spec(fx_mul_spec(base_frequency, relative_frequency), detune)
}

/// The decay duration of a partial in milliseconds:
/// `base_duration * relative_duration`, truncated to whole
/// milliseconds and clamped into the representable duration range.
pub open spec fn partial_decay_ms_spec(base_duration: int, relative_duration: int) -> int {
    clamp_spec(tdiv(base_duration * relative_duration, SCALE as int), 0, u32::MAX as int)
}

/// One overtone of an additive voice: an oscillator at a frequency
/// relative to the voice's base, shaped by a short fixed attack ramp
/// and a decay ramp over the partial's share of the voice's duration.
/// Exhausted once both ramps are spent — from then on it emits nothing,
/// permanently.
pub struct Partial {
    pub amplitude: Amplitude,
    pub relative_duration: i64,
    pub relative_frequency: i64,
    pub detune: Hz,
    pub osc: Osc,
    pub attack: Line,
    pub decay: Line,
}

/// The partial that `Partial::new` builds.
pub open spec fn partial_new_spec(
    amplitude: Amplitude,
    relative_duration: i64,
    relative_frequency: i64,
    detune: Hz,
    sample_rate: SamplesPerSecond,
    base_duration: Millisecond,
    base_frequency: Hz,
) -> Partial {
    Partial {
        amplitude,
        relative_duration,
        relative_frequency,
        detune,
        osc: (Osc {
            phasor: (Phasor {
                phase: 0,
                frequency: partial_freq_spec(
                    base_frequency as int,
                    relative_frequency as int,
                    detune as int,
                ) as i64,
                sample_rate,
            }),
            waveform: Waveform::Sine,
            last_value: TENTH_SCALE,
        }),
        attack: (Line { index: 0, samples: PARTIAL_ATTACK_SAMPLES, start: 0, end: amplitude }),
        decay: (Line {
            index: 0,
            samples: ms_to_samples_spec(
                partial_decay_ms_spec(base_duration as int, relative_duration as int),
                sample_rate as int,
            ) as u32,
            start: amplitude,
            end: 0,
        }),
    }
}

/// The amplitude ramp value a partial would emit this tick: its attack
/// ramp first, its decay ramp immediately after, nothing once both are
/// spent.
pub open spec fn partial_env_spec(p: Partial) -> Option<i64> {
    if line_out_spec(p.attack) is Some {
        line_out_spec(p.attack)
    } else {
        line_out_spec(p.decay)
    }
}

/// The sample a partial would emit this tick: its oscillator's next
/// sample scaled by the ramp value, or nothing once exhausted.
pub open spec fn partial_out_spec(p: Partial, ext: int) -> Option<i64> {
    match partial_env_spec(p) {
        Some(amp) => Some(fx_mul_spec(osc_out_spec(p.osc, ext), amp as int) as i64),
        None => None,
    }
}

/// The state a partial moves to in one tick: the speaking ramp steps
/// forward and the oscillator advances; an exhausted partial does not
/// move at all — its oscillator's output would be thrown away, so the
/// oscillator is not ticked either.
pub open spec fn partial_next_spec(p: Partial, ext: int) -> Partial {
    if partial_env_spec(p) is None {
        p
    } else {
        Partial {
            attack: line_next_spec(p.attack),
            decay: if line_out_spec(p.attack) is Some {
                p.decay
            } else {
                line_next_spec(p.decay)
            },
            osc: osc_next_spec(p.osc, ext),
            ..p
        }
    }
}

impl Partial {
    /// The partial's oscillator is well-formed.
    pub open spec fn wf(&self) -> bool {
        self.osc.wf()
    }

    /// Build one overtone from its share of the voice's amplitude,
    /// duration and frequency.
    pub fn new(
        amplitude: Amplitude,
        relative_duration: i64,
        relative_frequency: i64,
        detune: Hz,
        sample_rate: SamplesPerSecond,
        base_duration: Millisecond,
        base_frequency: Hz,
    ) -> (p: Partial)
        ensures
            p == partial_new_spec(
                amplitude,
                relative_duration,
                relative_frequency,
                detune,
                sample_rate,
                base_duration,
                base_frequency,
            ),
            p.wf(),
    {
        let freq: Hz = fx_add(fx_mul(base_frequency, relative_frequency), detune);
        proof {
            lemma_i64_mul_fits(base_duration as int, relative_duration as int);
        }
        let scaled: i128 = (base_duration as i128) * (relative_duration as i128);
        let q: i128 = tdiv_i128(scaled, SCALE as i128);
        let decay_ms: u32 = if q < 0 {
            0
        } else if q > u32::MAX as i128 {
            u32::MAX
        } else {
            q as u32
        };
        Partial {
            amplitude,
            relative_duration,
            relative_frequency,
            detune,
            osc: Osc::new(freq, sample_rate),
            attack: Line::from_samples(0, amplitude, PARTIAL_ATTACK_SAMPLES),
            decay: Line::new(amplitude, 0, decay_ms, sample_rate),
        }
    }

    /// The partial's next sample: oscillator sample times ramp value;
    /// `None` once both ramps are spent, permanently.
    pub fn advance(&mut self, ext: Sample) -> (r: Option<Sample>)
        requires
            old(self).wf(),
            ext_ok_spec(old(self).osc.waveform, ext as int),
        ensures
            r == partial_out_spec(*old(self), ext as int),
            *final(self) == partial_next_spec(*old(self), ext as int),
            final(self).wf(),
    {
        let amp: Option<Amplitude> = match self.attack.advance() {
            Some(a) => Some(a),
            None => self.decay.advance(),
        };
        match amp {
            Some(a) => {
                let s: Sample = self.osc.advance(ext);
                Some(fx_mul(s, a))
            },
            None => None,
        }
    }
}

/// Both edges of a partial's life are exact silence: the attack ramp
/// starts at amplitude zero, so the first sample is zero whatever the
/// oscillator emits; the decay ramp ends at amplitude zero, so the last
/// sample before exhaustion is zero likewise — provided the decay spans
/// at least one sample (a zero-length decay is a single value equal to
/// the partial's full amplitude).
pub proof fn lemma_partial_edges_silent(p: Partial, ext: int)
    ensures
        p.attack.index == 0 && p.attack.start == 0
            ==> (partial_out_spec(p, ext) matches Some(s) ==> s == 0),
        p.attack.index > p.attack.samples && p.decay.index == p.decay.samples
            && p.decay.samples >= 1 && p.decay.end == 0
            ==> (partial_out_spec(p, ext) matches Some(s) ==> s == 0),
{
    let w: int = osc_out_spec(p.osc, ext);
    if p.attack.index == 0 && p.attack.start == 0 {
        lemma_line_val_endpoints(p.attack.start as int, p.attack.end as int, p.attack.samples as int);
        assert(line_val_spec(0, p.attack.end as int, p.attack.samples as int, 0) == 0);
        assert(w * 0 == 0);
    }
    if p.attack.index > p.attack.samples && p.decay.index == p.decay.samples && p.decay.end == 0 {
        lemma_line_val_endpoints(p.decay.start as int, p.decay.end as int, p.decay.samples as int);
        assert(w * 0 == 0);
    }
}

} // verus!
