//! Attack/decay/release amplitude envelopes.

use vstd::prelude::*;
use crate::fixed::SCALE;
use crate::line::{Line, line_out_spec, line_next_spec};
use crate::utils::ms_to_samples_spec;
use crate::{Amplitude, Millisecond, SamplesPerSecond};

verus! {

/// An ADSR-style amplitude shape: the ordered concatenation of three
/// ramps — attack (`0` to `1`), decay (`1` to `sustain`), release
/// (`sustain` to `0`). It is consumed one value at a time; once all
/// three ramps are spent it yields `None` permanently. Re-triggering is
/// done by constructing a fresh envelope — an envelope keeps no memory
/// of a previous trigger.
pub struct Envelope {
    pub attack: Line,
    pub decay: Line,
    pub release: Line,
}

/// The envelope that `Envelope::new` builds: three fresh ramps, each
/// sized by the millisecond-to-sample conversion.
pub open spec fn envelope_new_spec(
    attack: u32,
    decay: u32,
    sustain: i64,
    release: u32,
    sample_rate: u32,
) -> Envelope {
    Envelope {
        attack: (Line {
            index: 0,
            samples: ms_to_samples_spec(attack as int, sample_rate as int) as u32,
            start: 0,
            end: SCALE,
        }),
        decay: (Line {
            index: 0,
            samples: ms_to_samples_spec(decay as int, sample_rate as int) as u32,
            start: SCALE,
            end: sustain,
        }),
        release: (Line {
            index: 0,
            samples: ms_to_samples_spec(release as int, sample_rate as int) as u32,
            start: sustain,
            end: 0,
        }),
    }
}

/// What an envelope emits this tick: the first of its three ramps that
/// still holds values speaks; nothing once all three are spent.
pub open spec fn env_out_spec(e: Envelope) -> Option<i64> {
    if line_out_spec(e.attack) is Some {
        line_out_spec(e.attack)
    } else if line_out_spec(e.decay) is Some {
        line_out_spec(e.decay)
    } else {
        line_out_spec(e.release)
    }
}

/// The state an envelope moves to in one tick: the speaking ramp steps
/// forward; a spent envelope does not move.
pub open spec fn env_next_spec(e: Envelope) -> Envelope {
    if line_out_spec(e.attack) is Some {
        Envelope { attack: line_next_spec(e.attack), ..e }
    } else if line_out_spec(e.decay) is Some {
        Envelope { decay: line_next_spec(e.decay), ..e }
    } else {
        Envelope { release: line_next_spec(e.release), ..e }
    }
}

impl Envelope {
    /// Build a fresh envelope from three stage durations in
    /// milliseconds and a sustain level.
    pub fn new(
        attack: Millisecond,
        decay: Millisecond,
        sustain: Amplitude,
        release: Millisecond,
        sample_rate: SamplesPerSecond,
    ) -> (e: Envelope)
        ensures
            e == envelope_new_spec(attack, decay, sustain, release, sample_rate),
    {
        let attack = Line::new(0, SCALE, attack, sample_rate);
        let decay = Line::new(SCALE, sustain, decay, sample_rate);
        let release = Line::new(sustain, 0, release, sample_rate);
        Envelope { attack, decay, release }
    }

    /// Total number of amplitude values this envelope emits over its
    /// life: each stage contributes its sample count plus one, for the
    /// two included endpoints.
    pub open spec fn len_spec(&self) -> int {
        (self.attack.samples + 1) + (self.decay.samples + 1) + (self.release.samples + 1)
    }

    /// The number of values the envelope will have emitted once spent.
    pub fn len(&self) -> (n: u64)
        ensures
            n == self.len_spec(),
    {
        (self.attack.samples as u64 + 1) + (self.decay.samples as u64 + 1)
            + (self.release.samples as u64 + 1)
    }

    /// The next amplitude of the concatenation attack → decay →
    /// release; `None` once all three ramps are exhausted, permanently.
    pub fn advance(&mut self) -> (r: Option<Amplitude>)
        ensures
            r == env_out_spec(*old(self)),
            *final(self) == env_next_spec(*old(self)),
    {
        let v = self.attack.advance();
        match v {
            Some(a) => Some(a),
            None => {
                let v = self.decay.advance();
                match v {
                    Some(a) => Some(a),
                    None => self.release.advance(),
                }
            },
        }
    }
}

/// The length of a fresh envelope is the sum, over its three stages, of
/// the stage's duration in samples plus one.
pub proof fn lemma_envelope_len(
    attack: u32,
    decay: u32,
    sustain: i64,
    release: u32,
    sample_rate: u32,
)
    ensures
        envelope_new_spec(attack, decay, sustain, release, sample_rate).len_spec()
            == (ms_to_samples_spec(attack as int, sample_rate as int) + 1)
            + (ms_to_samples_spec(decay as int, sample_rate as int) + 1)
            + (ms_to_samples_spec(release as int, sample_rate as int) + 1),
{
}

} // verus!
