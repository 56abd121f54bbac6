//! Exact fixed-point arithmetic for audio quantities.
//!
//! Every amplitude, phase and frequency in this crate is an `i64` holding
//! billionths of a unit: the value `1.0` is [`SCALE`], `0.5` is `SCALE / 2`,
//! and so on. All arithmetic on these raw values is exact integer
//! arithmetic; a product or a quotient truncates toward zero at the last
//! step, and a sum that leaves the `i64` range saturates. This keeps every
//! sample bit-reproducible across runs and machines, which a host mixing
//! audio at a real-time rate depends on.

use vstd::prelude::*;
use vstd::arithmetic::div_mod::*;
use vstd::arithmetic::mul::*;

verus! {

/// Raw representation of the value one: amounts are in billionths.
pub const SCALE: i64 = 1_000_000_000;

/// Raw representation of one half.
pub const HALF_SCALE: i64 = 500_000_000;

/// Raw representation of one tenth.
pub const TENTH_SCALE: i64 = 100_000_000;

/// Truncating (round-toward-zero) division, as the machine performs it.
/// Meaningful for positive divisors.
pub open spec fn tdiv(a: int, d: int) -> int {
    if a >= 0 {
        a / d
    } else {
        -((-a) / d)
    }
}

/// Clamp `x` into the `i64` range.
pub open spec fn sat64(x: int) -> int {
    if x > i64::MAX {
        i64::MAX as int
    } else if x < i64::MIN {
        i64::MIN as int
    } else {
        x
    }
}

/// Clamp `x` into `[lo, hi]`.
pub open spec fn clamp_spec(x: int, lo: int, hi: int) -> int {
    if x < lo {
        lo
    } else if x > hi {
        hi
    } else {
        x
    }
}

/// Saturating sum of two raw fixed-point values.
pub open spec fn fx_add_spec(a: int, b: int) -> int {
    sat64(a + b)
}

/// Product of two fixed-point values: exact product, scaled back down
/// with truncation, then saturated.
pub open spec fn fx_mul_spec(a: int, b: int) -> int {
    sat64(tdiv(a * b, SCALE as int))
}

/// The product of two `i64` values stays well inside the `i128` range.
pub proof fn lemma_i64_mul_fits(x: int, y: int)
    requires
        i64::MIN <= x <= i64::MAX,
        i64::MIN <= y <= i64::MAX,
    ensures
        -0x4000_0000_0000_0000_0000_0000_0000_0000 <= x * y
            <= 0x4000_0000_0000_0000_0000_0000_0000_0000,
{
    assert(-0x4000_0000_0000_0000_0000_0000_0000_0000 <= x * y
        <= 0x4000_0000_0000_0000_0000_0000_0000_0000) by (nonlinear_arith)
        requires
            -0x8000_0000_0000_0000 <= x <= 0x7fff_ffff_ffff_ffff,
            -0x8000_0000_0000_0000 <= y <= 0x7fff_ffff_ffff_ffff,
    ;
}

/// Truncating division never grows a value's magnitude against its
/// divisor's bound: `|a| <= b * d` gives `|a / d| <= b`.
pub proof fn lemma_tdiv_bound(a: int, d: int, b: int)
    requires
        d > 0,
        b >= 0,
        -(b * d) <= a <= b * d,
    ensures
        -b <= tdiv(a, d) <= b,
{
    lemma_mul_is_commutative(b, d);
    lemma_div_multiples_vanish(b, d);
    if a >= 0 {
        lemma_div_pos_is_pos(a, d);
        lemma_div_is_ordered(a, b * d, d);
    } else {
        lemma_div_pos_is_pos(-a, d);
        lemma_div_is_ordered(-a, b * d, d);
    }
}

/// Truncating division moves a value toward zero, never past it and
/// never away from it.
pub proof fn lemma_tdiv_in_range(a: int, d: int)
    requires
        d > 0,
    ensures
        a >= 0 ==> 0 <= tdiv(a, d) <= a,
        a < 0 ==> a <= tdiv(a, d) <= 0,
{
    if a >= 0 {
        lemma_div_pos_is_pos(a, d);
        lemma_div_nonincreasing(a, d);
    } else {
        lemma_div_pos_is_pos(-a, d);
        lemma_div_nonincreasing(-a, d);
    }
}

/// Dividing an exact multiple undoes the multiplication.
pub proof fn lemma_tdiv_mul_exact(a: int, d: int)
    requires
        d > 0,
    ensures
        tdiv(a * d, d) == a,
{
    if a >= 0 {
        lemma_mul_nonnegative(a, d);
        lemma_mul_is_commutative(a, d);
        lemma_div_multiples_vanish(a, d);
    } else {
        lemma_mul_strict_inequality(a, 0, d);
        lemma_mul_unary_negation(a, d);
        lemma_mul_is_commutative(-a, d);
        lemma_div_multiples_vanish(-a, d);
    }
}

/// Truncating division is monotone in the dividend.
pub proof fn lemma_tdiv_ordered(a: int, b: int, d: int)
    requires
        d > 0,
        a <= b,
    ensures
        tdiv(a, d) <= tdiv(b, d),
{
    if a >= 0 {
        lemma_div_is_ordered(a, b, d);
    } else if b >= 0 {
        lemma_div_pos_is_pos(-a, d);
        lemma_div_pos_is_pos(b, d);
    } else {
        lemma_div_is_ordered(-b, -a, d);
    }
}

/// Truncating division of `i128` values by a positive divisor.
pub fn tdiv_i128(a: i128, d: i128) -> (q: i128)
    requires
        d > 0,
        a > i128::MIN,
    ensures
        q == tdiv(a as int, d as int),
{
    if a >= 0 {
        let n: u128 = (a as u128) / (d as u128);
        proof {
            lemma_div_pos_is_pos(a as int, d as int);
            lemma_div_nonincreasing(a as int, d as int);
        }
        n as i128
    } else {
        let n: u128 = ((-a) as u128) / (d as u128);
        proof {
            lemma_div_pos_is_pos(-(a as int), d as int);
            lemma_div_nonincreasing(-(a as int), d as int);
        }
        -(n as i128)
    }
}

/// Euclidean remainder of an `i128` value by a positive modulus:
/// the result is always in `[0, m)`, also for negative `a`.
pub fn emod_i128(a: i128, m: i128) -> (r: i128)
    requires
        m > 0,
        a > i128::MIN,
    ensures
        r == (a as int) % (m as int),
        0 <= r < m,
{
    proof {
        lemma_mod_bound(a as int, m as int);
    }
    if a >= 0 {
        let n: u128 = (a as u128) % (m as u128);
        proof {
            lemma_mod_bound(a as int, m as int);
        }
        n as i128
    } else {
        let b: u128 = (-a) as u128;
        let n: u128 = b % (m as u128);
        proof {
            lemma_mod_bound(b as int, m as int);
            lemma_fundamental_div_mod(b as int, m as int);
            let q: int = (b as int) / (m as int);
            let rr: int = (b as int) % (m as int);
            if rr == 0 {
                assert(a as int == (-q) * (m as int)) by {
                    lemma_mul_unary_negation(q, m as int);
                }
                lemma_mod_multiples_basic(-q, m as int);
            } else {
                assert(a as int == (-q - 1) * (m as int) + ((m as int) - rr)) by {
                    lemma_mul_is_distributive_sub_other_way(m as int, -q, 1);
                    lemma_mul_unary_negation(q, m as int);
                }
                lemma_fundamental_div_mod_converse_mod(a as int, m as int, -q - 1, (m as int) - rr);
            }
        }
        if n == 0 {
            0
        } else {
            m - (n as i128)
        }
    }
}

/// Saturate an `i128` into the `i64` range.
pub fn sat_to_i64(x: i128) -> (r: i64)
    ensures
        r == sat64(x as int),
{
    if x > i64::MAX as i128 {
        i64::MAX
    } else if x < i64::MIN as i128 {
        i64::MIN
    } else {
        x as i64
    }
}

/// Saturating addition of raw fixed-point values.
pub fn fx_add(a: i64, b: i64) -> (r: i64)
    ensures
        r == fx_add_spec(a as int, b as int),
{
    sat_to_i64((a as i128) + (b as i128))
}

/// Fixed-point multiplication: exact wide product, truncated back to
/// billionths, saturated into `i64`.
pub fn fx_mul(a: i64, b: i64) -> (r: i64)
    ensures
        r == fx_mul_spec(a as int, b as int),
{
    proof {
        lemma_i64_mul_fits(a as int, b as int);
    }
    let p: i128 = (a as i128) * (b as i128);
    let q: i128 = tdiv_i128(p, SCALE as i128);
    sat_to_i64(q)
}

/// Clamp a raw value into `[lo, hi]`.
pub fn fx_clamp(x: i64, lo: i64, hi: i64) -> (r: i64)
    requires
        lo <= hi,
    ensures
        r == clamp_spec(x as int, lo as int, hi as int),
{
    if x < lo {
        lo
    } else if x > hi {
        hi
    } else {
        x
    }
}

} // verus!
