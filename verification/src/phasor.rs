//! Normalized-phase accumulation.

use vstd::prelude::*;
use crate::fixed::{SCALE, tdiv, tdiv_i128, emod_i128, lemma_tdiv_in_range};
use crate::{Hz, Phase, SamplesPerSecond};

verus! {

/// Per-sample phase increment, `frequency / sample_rate`. A zero sample
/// rate is a configuration error; it is answered with no motion rather
/// than a fault, since an audio callback cannot recover from one.
pub open spec fn phase_inc_spec(frequency: int, sample_rate: int) -> int {
    if sample_rate <= 0 {
        0
    } else {
        tdiv(frequency, sample_rate)
    }
}

/// The phase after one tick: increment, then wrap into `[0, 1)` cycles
/// by Euclidean remainder, so even a negative or a very large frequency
/// lands back inside the cycle.
pub open spec fn next_phase_spec(phase: int, frequency: int, sample_rate: int) -> int {
    (phase + phase_inc_spec(frequency, sample_rate)) % (SCALE as int)
}

/// Phase stays in `[0, 1)` cycles and marks the position on the axis of
/// time within one period of a waveform. Audio signals are periodic, so
/// one cycle is computed over and over; wrapping by remainder (never by
/// clamping) keeps the phase exact for any frequency.
pub struct Phasor {
    pub phase: Phase,
    pub frequency: Hz,
    pub sample_rate: SamplesPerSecond,
}

impl Phasor {
    /// The phase sits inside one cycle.
    pub open spec fn wf(&self) -> bool {
        0 <= self.phase < SCALE
    }

    /// A phasor at rest at phase zero.
    pub fn new(frequency: Hz, sample_rate: SamplesPerSecond) -> (p: Phasor)
        ensures
            p.phase == 0,
            p.frequency == frequency,
            p.sample_rate == sample_rate,
            p.wf(),
    {
        Phasor { phase: 0, frequency, sample_rate }
    }

    /// Advance one tick: add `frequency / sample_rate` to the phase and
    /// wrap into `[0, 1)`. Returns the new phase.
    pub fn advance(&mut self) -> (p: Phase)
        ensures
            p == next_phase_spec(
                old(self).phase as int,
                old(self).frequency as int,
                old(self).sample_rate as int,
            ),
            final(self).phase == p,
            final(self).frequency == old(self).frequency,
            final(self).sample_rate == old(self).sample_rate,
            final(self).wf(),
    {
        let inc: i64 = if self.sample_rate == 0 {
            0
        } else {
            proof {
                lemma_tdiv_in_range(self.frequency as int, self.sample_rate as int);
            }
            tdiv_i128(self.frequency as i128, self.sample_rate as i128) as i64
        };
        let wrapped: i128 = emod_i128((self.phase as i128) + (inc as i128), SCALE as i128);
        self.phase = wrapped as i64;
        self.phase
    }
}

} // verus!
