//! Finite linear ramps between two amplitudes.

use vstd::prelude::*;
use crate::fixed::{
    tdiv, tdiv_i128, lemma_tdiv_mul_exact, lemma_tdiv_ordered,
};
use crate::utils::{ms_to_samples, ms_to_samples_spec};
use crate::{Amplitude, Millisecond, SamplesPerSecond};

verus! {

/// The `i`-th value of a ramp from `start` to `end` over `samples`
/// steps: the exact interpolation `start + (end - start) * i / samples`,
/// computed from `i` in closed form — never by accumulating a slope — so
/// the ramp lands exactly on `start` at `i == 0` and exactly on `end` at
/// `i == samples`, with no drift in between. A ramp over zero samples
/// is a single value equal to `start`.
pub open spec fn line_val_spec(start: int, end: int, samples: int, i: int) -> int {
    if samples <= 0 {
        start
    } else {
        tdiv(start * (samples - i) + end * i, samples)
    }
}

/// All `samples + 1` values a ramp emits, endpoints included.
pub open spec fn line_seq_spec(start: int, end: int, samples: int) -> Seq<int> {
    Seq::new((samples + 1) as nat, |i: int| line_val_spec(start, end, samples, i))
}

/// Every ramp value lies between the two endpoints.
pub proof fn lemma_line_val_bounds(start: int, end: int, samples: int, i: int)
    requires
        0 <= i <= samples,
    ensures
        line_val_spec(start, end, samples, i) <= if start <= end { end } else { start },
        line_val_spec(start, end, samples, i) >= if start <= end { start } else { end },
{
    if samples > 0 {
        let lo: int = if start <= end { start } else { end };
        let hi: int = if start <= end { end } else { start };
        let num: int = start * (samples - i) + end * i;
        assert(lo * samples <= num <= hi * samples) by (nonlinear_arith)
            requires
                lo <= start <= hi,
                lo <= end <= hi,
                0 <= i <= samples,
                num == start * (samples - i) + end * i,
        ;
        lemma_tdiv_mul_exact(lo, samples);
        lemma_tdiv_mul_exact(hi, samples);
        lemma_tdiv_ordered(lo * samples, num, samples);
        lemma_tdiv_ordered(num, hi * samples, samples);
    }
}

/// A ramp starts exactly on `start` and ends exactly on `end`.
pub proof fn lemma_line_val_endpoints(start: int, end: int, samples: int)
    requires
        samples >= 0,
    ensures
        line_val_spec(start, end, samples, 0) == start,
        samples > 0 ==> line_val_spec(start, end, samples, samples) == end,
{
    if samples > 0 {
        assert(start * (samples - 0) + end * 0 == start * samples) by (nonlinear_arith);
        assert(start * (samples - samples) + end * samples == end * samples) by (nonlinear_arith);
        lemma_tdiv_mul_exact(start, samples);
        lemma_tdiv_mul_exact(end, samples);
    }
}

/// A ramp is monotonic in the sign of `end - start`.
pub proof fn lemma_line_val_monotone(start: int, end: int, samples: int, i: int, j: int)
    requires
        0 <= i <= j <= samples,
    ensures
        start <= end ==> line_val_spec(start, end, samples, i)
            <= line_val_spec(start, end, samples, j),
        start >= end ==> line_val_spec(start, end, samples, i)
            >= line_val_spec(start, end, samples, j),
{
    if samples > 0 {
        let ni: int = start * (samples - i) + end * i;
        let nj: int = start * (samples - j) + end * j;
        assert(nj - ni == (end - start) * (j - i)) by (nonlinear_arith)
            requires
                ni == start * (samples - i) + end * i,
                nj == start * (samples - j) + end * j,
        ;
        if start <= end {
            assert(nj - ni >= 0) by (nonlinear_arith)
                requires
                    nj - ni == (end - start) * (j - i),
                    end >= start,
                    j >= i,
            ;
            lemma_tdiv_ordered(ni, nj, samples);
        }
        if start >= end {
            assert(nj - ni <= 0) by (nonlinear_arith)
                requires
                    nj - ni == (end - start) * (j - i),
                    end <= start,
                    j >= i,
            ;
            lemma_tdiv_ordered(nj, ni, samples);
        }
    }
}

/// A ramp over `duration > 0` emits exactly `duration + 1` values: the
/// first exactly `start`, the last exactly `end`, all of them between
/// the two, in monotonic order following the sign of `end - start`.
pub proof fn lemma_line_emits(start: int, end: int, samples: int)
    requires
        samples > 0,
    ensures
        line_seq_spec(start, end, samples).len() == samples + 1,
        line_seq_spec(start, end, samples).first() == start,
        line_seq_spec(start, end, samples).last() == end,
        forall|i: int, j: int|
            0 <= i <= j <= samples && start <= end
                ==> #[trigger] line_seq_spec(start, end, samples)[i]
                <= #[trigger] line_seq_spec(start, end, samples)[j],
        forall|i: int, j: int|
            0 <= i <= j <= samples && start >= end
                ==> #[trigger] line_seq_spec(start, end, samples)[i]
                >= #[trigger] line_seq_spec(start, end, samples)[j],
{
    lemma_line_val_endpoints(start, end, samples);
    assert forall|i: int, j: int| 0 <= i <= j <= samples implies {
        &&& start <= end ==> line_val_spec(start, end, samples, i)
            <= line_val_spec(start, end, samples, j)
        &&& start >= end ==> line_val_spec(start, end, samples, i)
            >= line_val_spec(start, end, samples, j)
    } by {
        lemma_line_val_monotone(start, end, samples, i, j);
    };
}

/// A finite linear interpolation from `start` to `end` over `samples`
/// inclusive steps: `samples + 1` values in all, endpoints emitted
/// exactly. Once `index` passes `samples` the line is exhausted for
/// good — it produces nothing further and is not reusable.
pub struct Line {
    pub index: u64,
    pub samples: u32,
    pub start: Amplitude,
    pub end: Amplitude,
}

/// What a ramp emits this tick: its value at the current index, or
/// nothing once the index has passed the sample count.
pub open spec fn line_out_spec(l: Line) -> Option<i64> {
    if l.index <= l.samples {
        Some(line_val_spec(l.start as int, l.end as int, l.samples as int, l.index as int) as i64)
    } else {
        None
    }
}

/// The state a ramp moves to in one tick: the index steps forward while
/// values remain; an exhausted ramp does not move.
pub open spec fn line_next_spec(l: Line) -> Line {
    if l.index <= l.samples {
        Line { index: (l.index + 1) as u64, ..l }
    } else {
        l
    }
}

impl Line {
    /// A fresh ramp over an explicit sample count.
    pub fn from_samples(start: Amplitude, end: Amplitude, samples: u32) -> (l: Line)
        ensures
            l.index == 0,
            l.samples == samples,
            l.start == start,
            l.end == end,
    {
        Line { index: 0, samples, start, end }
    }

    /// A fresh ramp over `duration` milliseconds at `sample_rate`.
    pub fn new(
        start: Amplitude,
        end: Amplitude,
        duration: Millisecond,
        sample_rate: SamplesPerSecond,
    ) -> (l: Line)
        ensures
            l.index == 0,
            l.samples == ms_to_samples_spec(duration as int, sample_rate as int),
            l.start == start,
            l.end == end,
    {
        Line { index: 0, samples: ms_to_samples(duration, sample_rate), start, end }
    }

    /// The next value the ramp will emit, exactly interpolated from its
    /// current index; `None` once exhausted, permanently.
    pub fn advance(&mut self) -> (r: Option<Amplitude>)
        ensures
            r == line_out_spec(*old(self)),
            *final(self) == line_next_spec(*old(self)),
    {
        if self.index <= self.samples as u64 {
            let v: i64 = line_value_at(self.start, self.end, self.samples, self.index as u32);
            self.index = self.index + 1;
            Some(v)
        } else {
            None
        }
    }
}

/// All the values of the ramp from `start` to `end` over `steps`
/// inclusive steps, as one buffer: the closed-form interpolation at
/// every index, endpoints exact.
pub fn interpolate(start: Amplitude, end: Amplitude, steps: u32) -> (out: Vec<Amplitude>)
    ensures
        out@.len() == steps + 1,
        forall|i: int| 0 <= i <= steps
            ==> out@[i] == line_val_spec(start as int, end as int, steps as int, i) as i64,
{
    let mut out: Vec<Amplitude> = Vec::new();
    let mut i: u64 = 0;
    while i <= steps as u64
        invariant
            i <= steps + 1,
            out@.len() == i,
            forall|j: int| 0 <= j < i
                ==> out@[j] == line_val_spec(start as int, end as int, steps as int, j) as i64,
        decreases steps + 1 - i,
    {
        out.push(line_value_at(start, end, steps, i as u32));
        i = i + 1;
    }
    out
}

/// Compute one exact ramp value at position `i`.
pub fn line_value_at(start: Amplitude, end: Amplitude, samples: u32, i: u32) -> (v: Amplitude)
    requires
        i <= samples,
    ensures
        v == line_val_spec(start as int, end as int, samples as int, i as int),
{
    if samples == 0 {
        start
    } else {
        proof {
            lemma_line_val_bounds(start as int, end as int, samples as int, i as int);
            assert(-0x8000_0000_0000_0000_0000_0000_0000 <= (start as int) * ((samples - i) as int)
                <= 0x8000_0000_0000_0000_0000_0000_0000) by (nonlinear_arith)
                requires
                    -0x8000_0000_0000_0000 <= start as int <= 0x7fff_ffff_ffff_ffff,
                    0 <= (samples - i) as int <= 0xffff_ffff,
            ;
            assert(-0x8000_0000_0000_0000_0000_0000_0000 <= (end as int) * (i as int)
                <= 0x8000_0000_0000_0000_0000_0000_0000) by (nonlinear_arith)
                requires
                    -0x8000_0000_0000_0000 <= end as int <= 0x7fff_ffff_ffff_ffff,
                    0 <= i as int <= 0xffff_ffff,
            ;
        }
        let num: i128 = (start as i128) * ((samples - i) as i128) + (end as i128) * (i as i128);
        tdiv_i128(num, samples as i128) as i64
    }
}

} // verus!
