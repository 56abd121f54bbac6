//! Mixing a bank of voices into one mono sample stream.

use vstd::prelude::*;
use crate::envelope::{Envelope, env_out_spec, env_next_spec};
use crate::fixed::{
    SCALE, tdiv, fx_add_spec, fx_mul_spec, fx_add, fx_mul, tdiv_i128, lemma_tdiv_in_range,
};
use crate::osc::{Osc, ext_ok_spec, osc_out_spec, osc_next_spec};
use crate::partial::{Partial, partial_new_spec, partial_out_spec, partial_next_spec,
    lemma_partial_edges_silent};
use crate::{Hz, Millisecond, Sample, SamplesPerSecond};

verus! {

/// Which synthesis strategy an instrument runs: a sum of independently
/// enveloped partials, or a unison oscillator bank under one shared
/// envelope. The two are interchangeable behind the same
/// advance-one-sample contract.
#[derive(Clone, Copy, PartialEq, Eq, Structural, Debug)]
pub enum Mode {
    Additive,
    Bank,
}

/// What each partial of an additive voice emits this tick.
pub open spec fn partial_outs_spec(ps: Seq<Partial>, exts: Seq<i64>) -> Seq<Option<i64>> {
    Seq::new(ps.len(), |k: int| partial_out_spec(ps[k], exts[k] as int))
}

/// The states the partials move to in one tick.
pub open spec fn partials_next_spec(ps: Seq<Partial>, exts: Seq<i64>) -> Seq<Partial> {
    Seq::new(ps.len(), |k: int| partial_next_spec(ps[k], exts[k] as int))
}

/// What each oscillator of a bank emits this tick.
pub open spec fn osc_outs_spec(oscs: Seq<Osc>, exts: Seq<i64>) -> Seq<int> {
    Seq::new(oscs.len(), |k: int| osc_out_spec(oscs[k], exts[k] as int))
}

/// The states the bank oscillators move to in one tick.
pub open spec fn oscs_next_spec(oscs: Seq<Osc>, exts: Seq<i64>) -> Seq<Osc> {
    Seq::new(oscs.len(), |k: int| osc_next_spec(oscs[k], exts[k] as int))
}

/// Left-to-right saturating sum of the first `n` per-partial outputs;
/// an exhausted partial contributes zero, it does not end the mix.
pub open spec fn mix_spec(outs: Seq<Option<i64>>, n: int) -> int
    decreases n,
{
    if n <= 0 {
        0
    } else {
        fx_add_spec(
            mix_spec(outs, n - 1),
            match outs[n - 1] {
                Some(v) => v as int,
                None => 0,
            },
        )
    }
}

/// Whether any voice still emitted this tick.
pub open spec fn any_some_spec(outs: Seq<Option<i64>>) -> bool {
    exists|k: int| 0 <= k < outs.len() && outs[k] is Some
}

/// Left-to-right saturating sum of the first `n` bank samples.
pub open spec fn sum_sat_spec(vals: Seq<int>, n: int) -> int
    decreases n,
{
    if n <= 0 {
        0
    } else {
        fx_add_spec(sum_sat_spec(vals, n - 1), vals[n - 1])
    }
}

/// Arithmetic mean of the bank samples; an empty bank is silent.
pub open spec fn mean_spec(vals: Seq<int>) -> int {
    if vals.len() == 0 {
        0
    } else {
        tdiv(sum_sat_spec(vals, vals.len() as int), vals.len() as int)
    }
}

/// The canonical bell preset: eleven partials given as
/// `(amplitude, duration share, frequency ratio, detune in Hz)`.
pub open spec fn bell_partials_spec(
    base_frequency: Hz,
    duration: Millisecond,
    sample_rate: SamplesPerSecond,
) -> Seq<Partial> {
    seq![
        partial_new_spec(SCALE, SCALE, 560_000_000, 0, sample_rate, duration, base_frequency),
        partial_new_spec(
            670_000_000, 900_000_000, 560_000_000, SCALE, sample_rate, duration, base_frequency,
        ),
        partial_new_spec(SCALE, 650_000_000, 820_000_000, 0, sample_rate, duration, base_frequency),
        partial_new_spec(
            1_800_000_000, 550_000_000, 920_000_000, 1_700_000_000, sample_rate, duration,
            base_frequency,
        ),
        partial_new_spec(
            2_670_000_000, 325_000_000, 1_190_000_000, 0, sample_rate, duration, base_frequency,
        ),
        partial_new_spec(
            1_670_000_000, 350_000_000, 1_700_000_000, 0, sample_rate, duration, base_frequency,
        ),
        partial_new_spec(
            1_460_000_000, 250_000_000, 2_000_000_000, 0, sample_rate, duration, base_frequency,
        ),
        partial_new_spec(
            1_330_000_000, 200_000_000, 2_740_000_000, 0, sample_rate, duration, base_frequency,
        ),
        partial_new_spec(
            1_330_000_000, 150_000_000, 3_000_000_000, 0, sample_rate, duration, base_frequency,
        ),
        partial_new_spec(
            SCALE, 100_000_000, 3_760_000_000, 0, sample_rate, duration, base_frequency,
        ),
        partial_new_spec(
            1_330_000_000, 75_000_000, 4_070_000_000, 0, sample_rate, duration, base_frequency,
        ),
    ]
}

/// The top-level voice: either a set of [`Partial`]s summed (the
/// additive strategy) or an oscillator bank averaged under one shared
/// [`Envelope`]. Each tick emits one mixed mono sample; once the voice
/// has nothing further to say it emits `None` and latches `complete`,
/// which stays latched — a normal terminal state the host reads, never
/// an error.
pub struct Instrument {
    pub mode: Mode,
    pub partials: Vec<Partial>,
    pub oscs: Vec<Osc>,
    pub envelope: Envelope,
    pub complete: bool,
}

/// The mixed sample an instrument emits this tick, or `None` when it is
/// spent: in the additive strategy when every partial is exhausted, in
/// the bank strategy when the shared envelope is.
pub open spec fn inst_out_spec(inst: Instrument, exts: Seq<i64>) -> Option<i64> {
    match inst.mode {
        Mode::Additive => {
            let outs = partial_outs_spec(inst.partials@, exts);
            if any_some_spec(outs) {
                Some(mix_spec(outs, outs.len() as int) as i64)
            } else {
                None
            }
        },
        Mode::Bank => match env_out_spec(inst.envelope) {
            Some(a) => Some(
                fx_mul_spec(mean_spec(osc_outs_spec(inst.oscs@, exts)), a as int) as i64,
            ),
            None => None,
        },
    }
}

impl Instrument {
    /// Every voice's oscillator is well-formed.
    pub open spec fn wf(&self) -> bool {
        &&& forall|k: int| 0 <= k < self.partials@.len() ==> (#[trigger] self.partials@[k]).wf()
        &&& forall|k: int| 0 <= k < self.oscs@.len() ==> (#[trigger] self.oscs@[k]).wf()
    }

    /// What the tick's outside values must satisfy, one per voice of
    /// the running strategy.
    pub open spec fn exts_ok_spec(&self, exts: Seq<i64>) -> bool {
        match self.mode {
            Mode::Additive => {
                &&& exts.len() == self.partials@.len()
                &&& forall|k: int| 0 <= k < exts.len()
                    ==> ext_ok_spec(self.partials@[k].osc.waveform, #[trigger] exts[k] as int)
            },
            Mode::Bank => {
                &&& exts.len() == self.oscs@.len()
                &&& forall|k: int| 0 <= k < exts.len()
                    ==> ext_ok_spec(self.oscs@[k].waveform, #[trigger] exts[k] as int)
            },
        }
    }

    /// How many per-voice outside values one tick takes.
    pub fn voices(&self) -> (n: usize)
        ensures
            self.mode == Mode::Additive ==> n == self.partials@.len(),
            self.mode == Mode::Bank ==> n == self.oscs@.len(),
    {
        match self.mode {
            Mode::Additive => self.partials.len(),
            Mode::Bank => self.oscs.len(),
        }
    }

    /// A general additive instrument: one partial per frequency
    /// multiplier, each at full amplitude and full relative duration
    /// over a two-second base, undetuned.
    pub fn new(
        base_freq: Hz,
        partial_multipliers: Vec<i64>,
        sample_rate: SamplesPerSecond,
    ) -> (inst: Instrument)
        ensures
            inst.mode == Mode::Additive,
            inst.partials@.len() == partial_multipliers@.len(),
            forall|k: int| 0 <= k < partial_multipliers@.len()
                ==> inst.partials@[k] == partial_new_spec(
                    SCALE, SCALE, partial_multipliers@[k], 0, sample_rate, 2000, base_freq,
                ),
            inst.oscs@.len() == 0,
            !inst.complete,
            inst.wf(),
    {
        let mut partials: Vec<Partial> = Vec::new();
        let n: usize = partial_multipliers.len();
        let mut k: usize = 0;
        while k < n
            invariant
                k <= n,
                n == partial_multipliers@.len(),
                partials@.len() == k,
                forall|j: int| 0 <= j < k ==> partials@[j] == partial_new_spec(
                    SCALE, SCALE, partial_multipliers@[j], 0, sample_rate, 2000, base_freq,
                ),
            decreases n - k,
        {
            partials.push(
                Partial::new(SCALE, SCALE, partial_multipliers[k], 0, sample_rate, 2000, base_freq),
            );
            k = k + 1;
        }
        Instrument {
            mode: Mode::Additive,
            partials,
            oscs: Vec::new(),
            envelope: Envelope::new(0, 0, 0, 0, sample_rate),
            complete: false,
        }
    }

    /// A bell-like additive timbre: eleven partials at inharmonic
    /// frequency ratios with their canonical amplitude, duration share
    /// and detune, scaled to the given base frequency and duration.
    pub fn bell(
        base_freq: Hz,
        duration: Millisecond,
        sample_rate: SamplesPerSecond,
    ) -> (inst: Instrument)
        ensures
            inst.mode == Mode::Additive,
            inst.partials@ == bell_partials_spec(base_freq, duration, sample_rate),
            inst.oscs@.len() == 0,
            !inst.complete,
            inst.wf(),
    {
        let mut partials: Vec<Partial> = Vec::new();
        partials.push(Partial::new(SCALE, SCALE, 560_000_000, 0, sample_rate, duration, base_freq));
        partials.push(
            Partial::new(670_000_000, 900_000_000, 560_000_000, SCALE, sample_rate, duration, base_freq),
        );
        partials.push(
            Partial::new(SCALE, 650_000_000, 820_000_000, 0, sample_rate, duration, base_freq),
        );
        partials.push(
            Partial::new(
                1_800_000_000, 550_000_000, 920_000_000, 1_700_000_000, sample_rate, duration, base_freq,
            ),
        );
        partials.push(
            Partial::new(2_670_000_000, 325_000_000, 1_190_000_000, 0, sample_rate, duration, base_freq),
        );
        partials.push(
            Partial::new(1_670_000_000, 350_000_000, 1_700_000_000, 0, sample_rate, duration, base_freq),
        );
        partials.push(
            Partial::new(1_460_000_000, 250_000_000, 2_000_000_000, 0, sample_rate, duration, base_freq),
        );
        partials.push(
            Partial::new(1_330_000_000, 200_000_000, 2_740_000_000, 0, sample_rate, duration, base_freq),
        );
        partials.push(
            Partial::new(1_330_000_000, 150_000_000, 3_000_000_000, 0, sample_rate, duration, base_freq),
        );
        partials.push(
            Partial::new(SCALE, 100_000_000, 3_760_000_000, 0, sample_rate, duration, base_freq),
        );
        partials.push(
            Partial::new(1_330_000_000, 75_000_000, 4_070_000_000, 0, sample_rate, duration, base_freq),
        );
        proof {
            assert(partials@ =~= bell_partials_spec(base_freq, duration, sample_rate));
        }
        Instrument {
            mode: Mode::Additive,
            partials,
            oscs: Vec::new(),
            envelope: Envelope::new(0, 0, 0, 0, sample_rate),
            complete: false,
        }
    }

    /// A unison oscillator bank under one shared envelope.
    pub fn bank(oscs: Vec<Osc>, envelope: Envelope) -> (inst: Instrument)
        ensures
            inst.mode == Mode::Bank,
            inst.oscs == oscs,
            inst.envelope == envelope,
            inst.partials@.len() == 0,
            !inst.complete,
    {
        Instrument { mode: Mode::Bank, partials: Vec::new(), oscs, envelope, complete: false }
    }

    /// One mixed sample, or `None` once the voice is spent — from then
    /// on `complete` stays latched and every further tick is `None`.
    pub fn advance(&mut self, exts: &Vec<Sample>) -> (r: Option<Sample>)
        requires
            old(self).wf(),
            old(self).exts_ok_spec(exts@),
        ensures
            r == inst_out_spec(*old(self), exts@),
            final(self).mode == old(self).mode,
            final(self).complete == (old(self).complete || (r is None)),
            old(self).mode == Mode::Additive ==> {
                &&& final(self).partials@ == partials_next_spec(old(self).partials@, exts@)
                &&& final(self).oscs@ == old(self).oscs@
                &&& final(self).envelope == old(self).envelope
            },
            old(self).mode == Mode::Bank ==> {
                &&& final(self).oscs@ == oscs_next_spec(old(self).oscs@, exts@)
                &&& final(self).partials@ == old(self).partials@
                &&& final(self).envelope == env_next_spec(old(self).envelope)
            },
            final(self).wf(),
    {
        match self.mode {
            Mode::Additive => {
                let ghost outs = partial_outs_spec(old(self).partials@, exts@);
                let n: usize = self.partials.len();
                let mut k: usize = 0;
                let mut acc: i64 = 0;
                let mut got: bool = false;
                while k < n
                    invariant
                        k <= n,
                        self.mode == old(self).mode,
                        self.mode == Mode::Additive,
                        n == old(self).partials@.len(),
                        exts@.len() == n,
                        self.partials@.len() == n,
                        self.oscs == old(self).oscs,
                        self.envelope == old(self).envelope,
                        self.complete == old(self).complete,
                        outs == partial_outs_spec(old(self).partials@, exts@),
                        forall|j: int| 0 <= j < n
                            ==> ext_ok_spec(old(self).partials@[j].osc.waveform, #[trigger] exts@[j] as int),
                        forall|j: int| 0 <= j < n ==> (#[trigger] old(self).partials@[j]).wf(),
                        forall|j: int| k <= j < n
                            ==> self.partials@[j] == old(self).partials@[j],
                        forall|j: int| 0 <= j < k
                            ==> self.partials@[j] == partial_next_spec(
                                old(self).partials@[j], exts@[j] as int,
                            ),
                        forall|j: int| 0 <= j < n ==> (#[trigger] self.partials@[j]).wf(),
                        acc == mix_spec(outs, k as int),
                        got == exists|j: int| 0 <= j < k && outs[j] is Some,
                    decreases n - k,
                {
                    let ext_k: Sample = exts[k];
                    let out: Option<Sample> = self.partials[k].advance(ext_k);
                    match out {
                        Some(v) => {
                            acc = fx_add(acc, v);
                            got = true;
                        },
                        None => {
                            proof {
                                assert(mix_spec(outs, k + 1) == fx_add_spec(mix_spec(outs, k as int), 0));
                            }
                        },
                    }
                    k = k + 1;
                }
                if got {
                    proof {
                        assert(self.partials@ =~= partials_next_spec(old(self).partials@, exts@));
                    }
                    Some(acc)
                } else {
                    proof {
                        assert(self.partials@ =~= partials_next_spec(old(self).partials@, exts@));
                    }
                    self.complete = true;
                    None
                }
            },
            Mode::Bank => {
                let ghost vals = osc_outs_spec(old(self).oscs@, exts@);
                let n: usize = self.oscs.len();
                let mut k: usize = 0;
                let mut acc: i64 = 0;
                while k < n
                    invariant
                        k <= n,
                        self.mode == old(self).mode,
                        self.mode == Mode::Bank,
                        n == old(self).oscs@.len(),
                        exts@.len() == n,
                        self.oscs@.len() == n,
                        self.partials == old(self).partials,
                        self.envelope == old(self).envelope,
                        self.complete == old(self).complete,
                        vals == osc_outs_spec(old(self).oscs@, exts@),
                        forall|j: int| 0 <= j < n
                            ==> ext_ok_spec(old(self).oscs@[j].waveform, #[trigger] exts@[j] as int),
                        forall|j: int| 0 <= j < n ==> (#[trigger] old(self).oscs@[j]).wf(),
                        forall|j: int| k <= j < n ==> self.oscs@[j] == old(self).oscs@[j],
                        forall|j: int| 0 <= j < k
                            ==> self.oscs@[j] == osc_next_spec(old(self).oscs@[j], exts@[j] as int),
                        forall|j: int| 0 <= j < n ==> (#[trigger] self.oscs@[j]).wf(),
                        acc == sum_sat_spec(vals, k as int),
                    decreases n - k,
                {
                    let ext_k: Sample = exts[k];
                    let s: Sample = self.oscs[k].advance(ext_k);
                    acc = fx_add(acc, s);
                    k = k + 1;
                }
                proof {
                    assert(self.oscs@ =~= oscs_next_spec(old(self).oscs@, exts@));
                }
                let mean: i64 = if n == 0 {
                    0
                } else {
                    proof {
                        lemma_tdiv_in_range(acc as int, n as int);
                    }
                    tdiv_i128(acc as i128, n as i128) as i64
                };
                let amp: Option<Sample> = self.envelope.advance();
                match amp {
                    Some(a) => Some(fx_mul(mean, a)),
                    None => {
                        self.complete = true;
                        None
                    },
                }
            },
        }
    }

    /// The next mixed sample, with exhaustion folded to silence: the
    /// panic-free face of [`Instrument::advance`] the host calls.
    pub fn sample(&mut self, exts: &Vec<Sample>) -> (s: Sample)
        requires
            old(self).wf(),
            old(self).exts_ok_spec(exts@),
        ensures
            s == match inst_out_spec(*old(self), exts@) {
                Some(v) => v,
                None => 0,
            },
            final(self).mode == old(self).mode,
            final(self).complete == (old(self).complete
                || inst_out_spec(*old(self), exts@) is None),
            old(self).mode == Mode::Additive ==> {
                &&& final(self).partials@ == partials_next_spec(old(self).partials@, exts@)
                &&& final(self).oscs@ == old(self).oscs@
                &&& final(self).envelope == old(self).envelope
            },
            old(self).mode == Mode::Bank ==> {
                &&& final(self).oscs@ == oscs_next_spec(old(self).oscs@, exts@)
                &&& final(self).partials@ == old(self).partials@
                &&& final(self).envelope == env_next_spec(old(self).envelope)
            },
            final(self).wf(),
    {
        match self.advance(exts) {
            Some(s) => s,
            None => 0,
        }
    }
}

/// A mix in which every voice says zero or nothing is exact silence.
pub proof fn lemma_mix_of_silence(outs: Seq<Option<i64>>, n: int)
    requires
        forall|k: int| 0 <= k < n ==> (#[trigger] outs[k]) == Some(0i64) || outs[k] is None,
    ensures
        mix_spec(outs, n) == 0,
    decreases n,
{
    if n > 0 {
        lemma_mix_of_silence(outs, n - 1);
    }
}

/// The first tick of a fresh additive instrument is exact silence:
/// every partial's attack ramp starts at amplitude zero, so each
/// contributes zero whatever its oscillator does.
pub proof fn lemma_additive_first_sample_silent(inst: Instrument, exts: Seq<i64>)
    requires
        inst.mode == Mode::Additive,
        inst.partials@.len() > 0,
        forall|k: int| 0 <= k < inst.partials@.len() ==> {
            &&& (#[trigger] inst.partials@[k]).attack.index == 0
            &&& inst.partials@[k].attack.start == 0
        },
    ensures
        inst_out_spec(inst, exts) == Some(0i64),
{
    let outs = partial_outs_spec(inst.partials@, exts);
    assert forall|k: int| 0 <= k < outs.len() implies (#[trigger] outs[k]) == Some(0i64) by {
        lemma_partial_edges_silent(inst.partials@[k], exts[k] as int);
    };
    lemma_mix_of_silence(outs, outs.len() as int);
    assert(outs[0] is Some);
}

/// The last tick before an additive instrument exhausts is exact
/// silence: every partial is then either already spent or at the final
/// value of its decay ramp, which ends at amplitude zero. Decays of at
/// least one sample are asked for — a zero-length decay's single value
/// is the partial's full amplitude, not zero.
pub proof fn lemma_additive_last_sample_silent(inst: Instrument, exts: Seq<i64>)
    requires
        inst.mode == Mode::Additive,
        forall|k: int| 0 <= k < inst.partials@.len() ==> {
            let p = #[trigger] inst.partials@[k];
            &&& p.attack.index > p.attack.samples
            &&& p.decay.samples >= 1
            &&& p.decay.end == 0
            &&& p.decay.index == p.decay.samples || p.decay.index > p.decay.samples
        },
        exists|k: int| 0 <= k < inst.partials@.len()
            && (#[trigger] inst.partials@[k]).decay.index == inst.partials@[k].decay.samples,
    ensures
        inst_out_spec(inst, exts) == Some(0i64),
{
    let outs = partial_outs_spec(inst.partials@, exts);
    assert forall|k: int| 0 <= k < outs.len() implies
        (#[trigger] outs[k]) == Some(0i64) || outs[k] is None by {
        lemma_partial_edges_silent(inst.partials@[k], exts[k] as int);
    };
    lemma_mix_of_silence(outs, outs.len() as int);
    let w: int = choose|k: int| 0 <= k < inst.partials@.len()
        && (#[trigger] inst.partials@[k]).decay.index == inst.partials@[k].decay.samples;
    assert(outs[w] is Some);
}

} // verus!
