//! Shared facts about integer division used when a real-valued formula is
//! evaluated over integers: flooring a negative quotient, and bounds on a
//! delta scaled by a fraction `num / den` with `0 <= num <= den`.

use vstd::prelude::*;

verus! {

use vstd::arithmetic::div_mod::{
    lemma_div_by_self,
    lemma_div_is_ordered,
    lemma_div_multiples_vanish,
    lemma_div_pos_is_pos,
    lemma_fundamental_div_mod,
    lemma_fundamental_div_mod_converse,
    lemma_mod_pos_bound,
};
use vstd::arithmetic::mul::{
    lemma_mul_inequality,
    lemma_mul_is_commutative,
    lemma_mul_is_distributive_sub,
    lemma_mul_nonnegative,
    lemma_mul_unary_negation,
};

/// Flooring division of a negated non-negative numerator can be computed
/// with a rounding-up division of the numerator itself:
/// `(-a) / d == -((a + d - 1) / d)`.
pub proof fn lemma_neg_div_is_neg_ceil(a: int, d: int)
    requires
        0 <= a,
        0 < d,
    ensures
        (-a) / d == -((a + d - 1) / d),
{
    let q: int = a / d;
    let r: int = a % d;
    lemma_fundamental_div_mod(a, d);
    lemma_mod_pos_bound(a, d);
    assert(a == d * q + r);
    if r == 0 {
        assert(-a == (-q) * d + 0) by (nonlinear_arith)
            requires
                a == d * q + r,
                r == 0,
        ;
        lemma_fundamental_div_mod_converse(-a, d, -q, 0);
        assert(a + d - 1 == q * d + (d - 1)) by (nonlinear_arith)
            requires
                a == d * q + r,
                r == 0,
        ;
        lemma_fundamental_div_mod_converse(a + d - 1, d, q, d - 1);
    } else {
        assert(-a == (-(q + 1)) * d + (d - r)) by (nonlinear_arith)
            requires
                a == d * q + r,
        ;
        lemma_fundamental_div_mod_converse(-a, d, -(q + 1), d - r);
        assert(a + d - 1 == (q + 1) * d + (r - 1)) by (nonlinear_arith)
            requires
                a == d * q + r,
        ;
        lemma_fundamental_div_mod_converse(a + d - 1, d, q + 1, r - 1);
    }
}

/// A delta scaled by a fraction between zero and one stays between zero and
/// the delta, whichever sign the delta has.
pub proof fn lemma_scaled_delta_bounds(delta: int, num: int, den: int)
    requires
        0 < den,
        0 <= num <= den,
    ensures
        delta >= 0 ==> 0 <= (delta * num) / den <= delta,
        delta < 0 ==> delta <= (delta * num) / den <= 0,
{
    if delta >= 0 {
        lemma_mul_nonnegative(delta, num);
        lemma_div_pos_is_pos(delta * num, den);
        lemma_mul_inequality(num, den, delta);
        lemma_mul_is_commutative(num, delta);
        lemma_mul_is_commutative(den, delta);
        assert(delta * num <= delta * den);
        lemma_div_is_ordered(delta * num, delta * den, den);
        lemma_mul_is_commutative(delta, den);
        lemma_div_multiples_vanish(delta, den);
        assert((delta * den) / den == delta);
    } else {
        let mag: int = -delta;
        let a: int = mag * num;
        lemma_mul_unary_negation(mag, num);
        assert(delta * num == -a);
        lemma_mul_nonnegative(mag, num);
        lemma_neg_div_is_neg_ceil(a, den);
        assert((delta * num) / den == -((a + den - 1) / den));
        lemma_div_pos_is_pos(a + den - 1, den);
        assert((delta * num) / den <= 0);
        lemma_mul_inequality(num, den, mag);
        lemma_mul_is_commutative(num, mag);
        lemma_mul_is_commutative(den, mag);
        assert(a <= mag * den);
        lemma_div_is_ordered(a + den - 1, mag * den + den - 1, den);
        assert(mag * den + den - 1 == mag * den + (den - 1));
        lemma_mul_is_commutative(mag, den);
        lemma_fundamental_div_mod_converse(mag * den + den - 1, den, mag, den - 1);
        assert((mag * den + den - 1) / den == mag);
        assert((a + den - 1) / den <= mag);
    }
}

/// When the scaled step is at least one unit and undershoots the delta by at
/// least one unit, the scaled delta lies strictly between zero and the delta.
pub proof fn lemma_scaled_delta_strict(delta: int, num: int, den: int)
    requires
        0 < den,
        0 <= num <= den,
        delta != 0,
        (if delta >= 0 { delta } else { -delta }) * num >= den,
        (if delta >= 0 { delta } else { -delta }) * (den - num) >= den,
    ensures
        delta > 0 ==> 1 <= (delta * num) / den <= delta - 1,
        delta < 0 ==> delta + 1 <= (delta * num) / den <= -1,
{
    if delta > 0 {
        lemma_div_is_ordered(den, delta * num, den);
        lemma_div_by_self(den);
        assert((delta * num) / den >= 1);
        lemma_mul_is_distributive_sub(delta, den, num);
        assert(delta * den - delta * num >= den);
        assert(delta * num <= delta * den - den);
        assert(delta * den - den == den * (delta - 1)) by (nonlinear_arith);
        lemma_div_is_ordered(delta * num, den * (delta - 1), den);
        lemma_div_multiples_vanish(delta - 1, den);
        assert((delta * num) / den <= delta - 1);
    } else {
        let mag: int = -delta;
        let a: int = mag * num;
        lemma_mul_unary_negation(mag, num);
        lemma_mul_nonnegative(mag, num);
        lemma_neg_div_is_neg_ceil(a, den);
        assert((delta * num) / den == -((a + den - 1) / den));
        lemma_div_is_ordered(den + den - 1, a + den - 1, den);
        lemma_fundamental_div_mod_converse(den + den - 1, den, 1, den - 1);
        assert((a + den - 1) / den >= 1);
        lemma_mul_is_distributive_sub(mag, den, num);
        assert(mag * den - a >= den);
        assert(a + den - 1 <= mag * den - 1);
        assert(mag * den - 1 == (mag - 1) * den + (den - 1)) by (nonlinear_arith);
        lemma_fundamental_div_mod_converse(mag * den - 1, den, mag - 1, den - 1);
        lemma_div_is_ordered(a + den - 1, mag * den - 1, den);
        assert((a + den - 1) / den <= mag - 1);
    }
}

} // verus!
