//! Easing curves: pure reshaping of normalized progress into non-linear
//! motion.
//!
//! Progress through an animation of `duration` ticks after `elapsed` ticks is
//! the exact rational `elapsed / duration`. A curve's value at that point is
//! kept as an exact rational too, a numerator over a denominator that depends
//! only on the curve and the duration, so that sampling never rounds twice.

use vstd::prelude::*;

verus! {

/// Largest duration, in ticks, that an animation may have. Keeps the cubic
/// denominator `duration^3` and every scaled product inside machine range.
pub const MAX_DURATION: u32 = 1000000;

/// A closed set of named curves, each a pure function of progress.
#[derive(Clone, Copy, Debug, PartialEq, Eq, Structural)]
pub enum Easing {
    /// `f(t) = t`: progress is passed through unchanged.
    Linear,
    /// `f(t) = 1 - (1 - t)^3`: fast initial motion that decelerates into the
    /// target.
    EaseOutCubic,
}

pub open spec fn cube(x: int) -> int {
    x * x * x
}

/// Numerator of a curve's value at progress `e / d`; the denominator is
/// `frac_den(c, d)`. For `Linear` the value `e / d` is kept as is; for
/// `EaseOutCubic`, `1 - (1 - e/d)^3 == (d^3 - (d - e)^3) / d^3`.
pub open spec fn frac_num(c: Easing, e: int, d: int) -> int {
    match c {
        Easing::Linear => e,
        Easing::EaseOutCubic => cube(d) - cube(d - e),
    }
}

/// Denominator of a curve's value at any progress over `d` ticks.
pub open spec fn frac_den(c: Easing, d: int) -> int {
    match c {
        Easing::Linear => d,
        Easing::EaseOutCubic => cube(d),
    }
}

/// Cubing is monotone on the non-negative integers.
pub proof fn lemma_cube_monotone(a: int, b: int)
    by (nonlinear_arith)
    requires
        0 <= a <= b,
    ensures
        cube(a) <= cube(b),
{
}

/// Cubing is strictly monotone on the non-negative integers.
pub proof fn lemma_cube_strict_monotone(a: int, b: int)
    by (nonlinear_arith)
    requires
        0 <= a < b,
    ensures
        cube(a) < cube(b),
{
}

/// Every curve starts at 0 and ends at 1: at progress `0 / d` the value is
/// `0`, and at progress `d / d` it is exactly `1`.
pub proof fn lemma_sample_endpoints(c: Easing, d: int)
    requires
        0 < d,
    ensures
        frac_num(c, 0, d) == 0,
        frac_num(c, d, d) == frac_den(c, d),
{
    assert(cube(0) == 0);
}

/// Every curve is monotonically non-decreasing on `[0, 1]`: with a shared
/// denominator, later progress never has a smaller numerator.
pub proof fn lemma_sample_monotone(c: Easing, d: int, e1: int, e2: int)
    requires
        0 < d,
        0 <= e1 <= e2 <= d,
    ensures
        frac_num(c, e1, d) <= frac_num(c, e2, d),
{
    match c {
        Easing::Linear => {
        },
        Easing::EaseOutCubic => {
            lemma_cube_monotone(d - e2, d - e1);
        },
    }
}

/// On `[0, 1]` every curve's value stays within `[0, 1]`.
pub proof fn lemma_sample_bounds(c: Easing, e: int, d: int)
    requires
        0 < d,
        0 <= e <= d,
    ensures
        0 <= frac_num(c, e, d) <= frac_den(c, d),
        0 < frac_den(c, d),
{
    match c {
        Easing::Linear => {
        },
        Easing::EaseOutCubic => {
            lemma_cube_monotone(d - e, d);
            lemma_cube_monotone(0, d - e);
            lemma_cube_strict_monotone(0, d);
            assert(cube(0) == 0);
        },
    }
}

/// Strictly inside the animation the value is strictly inside `(0, 1)`.
pub proof fn lemma_sample_strict_bounds(c: Easing, e: int, d: int)
    requires
        0 < d,
        0 < e < d,
    ensures
        0 < frac_num(c, e, d) < frac_den(c, d),
{
    match c {
        Easing::Linear => {
        },
        Easing::EaseOutCubic => {
            lemma_cube_strict_monotone(d - e, d);
            lemma_cube_strict_monotone(0, d - e);
            assert(cube(0) == 0);
        },
    }
}

impl Easing {
    /// Exact value of the curve at progress `elapsed / duration`, returned as
    /// a numerator-denominator pair.
    pub fn sample_parts(&self, elapsed: u32, duration: u32) -> (r: (u64, u64))
        requires
            0 < duration <= MAX_DURATION,
            elapsed <= duration,
        ensures
            r.0 == frac_num(*self, elapsed as int, duration as int),
            r.1 == frac_den(*self, duration as int),
            0 < r.1,
            r.0 <= r.1,
    {
        proof {
            lemma_sample_bounds(*self, elapsed as int, duration as int);
        }
        match self {
            Easing::Linear => (elapsed as u64, duration as u64),
            Easing::EaseOutCubic => {
                let d: u64 = duration as u64;
                let rem: u64 = (duration - elapsed) as u64;
                proof {
                    assert(d * d <= 1000000000000 && 0 < d * d * d <= 1000000000000000000)
                        by (nonlinear_arith)
                        requires
                            0 < d <= 1000000,
                    ;
                    assert(rem * rem <= d * d && rem * rem * rem <= d * d * d)
                        by (nonlinear_arith)
                        requires
                            0 <= rem <= d,
                            d <= 1000000,
                    ;
                }
                let d3: u64 = d * d * d;
                let r3: u64 = rem * rem * rem;
                (d3 - r3, d3)
            },
        }
    }
}

} // verus!
