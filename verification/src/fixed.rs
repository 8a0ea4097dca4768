//! Fixed-point scalars.
//!
//! Every color channel, depth value and shading coefficient in this crate is
//! a fixed-point number: an integer count of 1/4096 units.  `FP_ONE`
//! represents 1.0, `FP_HALF` represents 0.5.  Working on integers keeps every
//! stage of the pipeline exact, so contracts can pin results down to the
//! unit.

use vstd::prelude::*;
use vstd::arithmetic::div_mod::{lemma_div_is_ordered, lemma_div_multiples_vanish};
use vstd::arithmetic::mul::lemma_mul_inequality;

verus! {

/// The fixed-point representation of 1.0.
pub const FP_ONE: u32 = 4096;

/// The fixed-point representation of 0.5.
pub const FP_HALF: u32 = 2048;

/// A unit-interval value: a fixed-point number in [0.0, 1.0].
pub open spec fn is_unit(x: u32) -> bool {
    x <= FP_ONE
}

/// Fixed-point product of two unit-interval values.
pub open spec fn spec_fp_mul(a: int, b: int) -> int {
    a * b / (FP_ONE as int)
}

/// The product of unit-interval values stays in the unit interval.
pub proof fn lemma_fp_mul_unit(a: int, b: int)
    requires
        0 <= a <= FP_ONE,
        0 <= b <= FP_ONE,
    ensures
        0 <= spec_fp_mul(a, b) <= FP_ONE,
        spec_fp_mul(a, FP_ONE as int) == a,
{
    lemma_mul_inequality(a, FP_ONE as int, b);
    lemma_mul_inequality(b, FP_ONE as int, FP_ONE as int);
    assert((FP_ONE as int) * b == b * (FP_ONE as int)) by (nonlinear_arith);
    lemma_div_is_ordered(a * b, (FP_ONE as int) * (FP_ONE as int), FP_ONE as int);
    assert((FP_ONE as int) * (FP_ONE as int) / (FP_ONE as int) == FP_ONE as int);
    assert(a * (FP_ONE as int) / (FP_ONE as int) == a) by (nonlinear_arith);
}

/// Scaling by a unit-interval factor never increases a nonnegative value.
pub proof fn lemma_fp_mul_le(x: int, t: int)
    requires
        0 <= x,
        0 <= t <= FP_ONE,
    ensures
        0 <= spec_fp_mul(x, t) <= x,
        spec_fp_mul(x, FP_ONE as int) == x,
{
    assert(x * t <= x * (FP_ONE as int)) by (nonlinear_arith)
        requires
            0 <= x,
            t <= FP_ONE,
    ;
    assert(x * t >= 0) by (nonlinear_arith)
        requires
            0 <= x,
            0 <= t,
    ;
    lemma_div_is_ordered(x * t, x * (FP_ONE as int), FP_ONE as int);
    lemma_div_is_ordered(0, x * t, FP_ONE as int);
    assert(x * (FP_ONE as int) / (FP_ONE as int) == x) by (nonlinear_arith);
}

/// Fixed-point product of two unit-interval values.
pub fn fp_mul(a: u32, b: u32) -> (r: u32)
    requires
        is_unit(a),
        is_unit(b),
    ensures
        r == spec_fp_mul(a as int, b as int),
        is_unit(r),
{
    proof {
        lemma_fp_mul_unit(a as int, b as int);
        lemma_mul_inequality(a as int, FP_ONE as int, b as int);
        lemma_mul_inequality(b as int, FP_ONE as int, FP_ONE as int);
        assert((FP_ONE as int) * b == b * (FP_ONE as int)) by (nonlinear_arith);
    }
    (a * b) / FP_ONE
}

/// Linear interpolation from `a` to `b` by a unit-interval parameter `t`:
/// the fixed-point form of `a + (b - a) * t`.
pub open spec fn spec_fp_lerp(a: int, b: int, t: int) -> int {
    if b >= a {
        a + (b - a) * t / (FP_ONE as int)
    } else {
        a - (a - b) * t / (FP_ONE as int)
    }
}

/// Interpolation endpoints: `t = 0` returns `a` exactly and `t = 1.0`
/// returns `b` exactly, and every result lies between the two.
pub proof fn lemma_fp_lerp_bounds(a: int, b: int, t: int)
    requires
        0 <= a <= FP_ONE,
        0 <= b <= FP_ONE,
        0 <= t <= FP_ONE,
    ensures
        spec_fp_lerp(a, b, 0) == a,
        spec_fp_lerp(a, b, FP_ONE as int) == b,
        spec_fp_lerp(a, b, t) >= if a <= b { a } else { b },
        spec_fp_lerp(a, b, t) <= if a <= b { b } else { a },
{
    if b >= a {
        lemma_fp_mul_le(b - a, t);
        lemma_fp_mul_le(b - a, FP_ONE as int);
    } else {
        lemma_fp_mul_le(a - b, t);
        lemma_fp_mul_le(a - b, FP_ONE as int);
    }
}

/// Linear interpolation from `a` to `b` by a unit-interval parameter `t`.
pub fn fp_lerp(a: u32, b: u32, t: u32) -> (r: u32)
    requires
        is_unit(a),
        is_unit(b),
        is_unit(t),
    ensures
        r == spec_fp_lerp(a as int, b as int, t as int),
        is_unit(r),
{
    proof {
        lemma_fp_lerp_bounds(a as int, b as int, t as int);
    }
    if b >= a {
        let step: u32 = fp_mul(b - a, t);
        a + step
    } else {
        let step: u32 = fp_mul(a - b, t);
        a - step
    }
}

/// `c * t / d` scales `c` by the fraction `t/d`: for `t` at most `d` the
/// result stays between 0 and `c`.
pub proof fn lemma_factor_scale_bound(c: int, t: int, d: int)
    requires
        0 <= c,
        0 <= t <= d,
        0 < d,
    ensures
        0 <= c * t / d <= c,
{
    assert(0 <= c * t <= c * d) by (nonlinear_arith)
        requires
            0 <= c,
            0 <= t <= d,
    ;
    assert(c * d == d * c) by (nonlinear_arith);
    lemma_div_is_ordered(0, c * t, d);
    lemma_div_is_ordered(c * t, d * c, d);
    lemma_div_multiples_vanish(c, d);
}

/// `c * t / d` is monotone in the fraction numerator `t`.
pub proof fn lemma_factor_scale_mono(c: int, t1: int, t2: int, d: int)
    requires
        0 <= c,
        t1 <= t2,
        0 < d,
    ensures
        c * t1 / d <= c * t2 / d,
{
    assert(c * t1 <= c * t2) by (nonlinear_arith)
        requires
            0 <= c,
            t1 <= t2,
    ;
    lemma_div_is_ordered(c * t1, c * t2, d);
}

/// `t * c / d` with `t` at most `d` stays between 0 and `c`.
pub proof fn lemma_scale_factor_bound(t: int, c: int, d: int)
    requires
        0 <= t <= d,
        0 <= c,
        0 < d,
    ensures
        0 <= t * c / d <= c,
{
    assert(t * c == c * t) by (nonlinear_arith);
    lemma_factor_scale_bound(c, t, d);
}

/// `t * c / d` is monotone in the scaled value `t`.
pub proof fn lemma_scale_factor_mono(t1: int, t2: int, c: int, d: int)
    requires
        0 <= t1 <= t2,
        0 <= c,
        0 < d,
    ensures
        t1 * c / d <= t2 * c / d,
{
    lemma_mul_inequality(t1, t2, c);
    lemma_div_is_ordered(t1 * c, t2 * c, d);
}

/// Saturating conversion to the unit interval.
pub fn clamp_unit(x: u32) -> (r: u32)
    ensures
        r == if x <= FP_ONE { x as int } else { FP_ONE as int },
        is_unit(r),
{
    if x <= FP_ONE {
        x
    } else {
        FP_ONE
    }
}

} // verus!
