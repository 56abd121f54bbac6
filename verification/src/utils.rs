//! Small shared helpers: millisecond-to-sample conversion and ramp slope.

use vstd::prelude::*;
use crate::fixed::{tdiv, sat64, tdiv_i128, sat_to_i64};
use crate::{Amplitude, Millisecond, SamplesPerSecond};
use vstd::arithmetic::mul::lemma_mul_upper_bound;

verus! {

/// Samples in `ms` milliseconds at `sample_rate`: the rate is first cut
/// down to whole samples per millisecond, then multiplied. The order of
/// the truncation matters at low sample rates and is kept deliberately.
/// A count past `u32::MAX` saturates.
pub open spec fn ms_to_samples_spec(ms: int, sample_rate: int) -> int {
    let n: int = (sample_rate / 1000) * ms;
    if n > u32::MAX {
        u32::MAX as int
    } else {
        n
    }
}

/// Convert a duration in milliseconds to a duration in samples.
pub fn ms_to_samples(ms: Millisecond, sample_rate: SamplesPerSecond) -> (n: u32)
    ensures
        n == ms_to_samples_spec(ms as int, sample_rate as int),
{
    let per_ms: u32 = sample_rate / 1000;
    proof {
        lemma_mul_upper_bound(per_ms as int, 0xffff_ffff, ms as int, 0xffff_ffff);
    }
    let wide: u64 = (per_ms as u64) * (ms as u64);
    if wide > u32::MAX as u64 {
        u32::MAX
    } else {
        wide as u32
    }
}

/// Rise per step of a ramp from `start` to `end` over `duration` steps.
/// A zero duration has no defined rise and yields 0 defensively; a rise
/// outside the representable range saturates.
pub open spec fn slope_spec(start: int, end: int, duration: int) -> int {
    if duration <= 0 {
        0
    } else {
        sat64(tdiv(end - start, duration))
    }
}

/// Compute the slope of a ramp.
pub fn slope(start: Amplitude, end: Amplitude, duration: Millisecond) -> (r: Amplitude)
    ensures
        r == slope_spec(start as int, end as int, duration as int),
{
    if duration == 0 {
        0
    } else {
        let d: i128 = (end as i128) - (start as i128);
        sat_to_i64(tdiv_i128(d, duration as i128))
    }
}

} // verus!
