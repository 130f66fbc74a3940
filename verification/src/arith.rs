//! Exact-arithmetic groundwork: ceiling division and the rounding bounds
//! the curve engine is proved against.

use vstd::arithmetic::div_mod::{
    lemma_div_by_multiple, lemma_div_is_ordered, lemma_div_pos_is_pos, lemma_fundamental_div_mod,
    lemma_hoist_over_denominator, lemma_mod_bound,
};
use vstd::arithmetic::mul::{lemma_mul_inequality, lemma_mul_is_commutative};
use vstd::prelude::*;

verus! {

/// `a / b` rounded toward positive infinity, for a non-negative numerator
/// and a positive denominator.
pub open spec fn ceil_div(a: int, b: int) -> int {
    (a + b - 1) / b
}

/// Flooring division `q = a / b` is the unique integer with
/// `q * b <= a < q * b + b`.
pub proof fn lemma_floor_div_bounds(a: int, b: int)
    requires
        a >= 0,
        b >= 1,
    ensures
        (a / b) * b <= a,
        a < (a / b) * b + b,
        a / b >= 0,
{
    lemma_fundamental_div_mod(a, b);
    lemma_mod_bound(a, b);
    lemma_div_pos_is_pos(a, b);
    lemma_mul_is_commutative(a / b, b);
}

/// Ceiling division `q = ceil_div(a, b)` is the unique integer with
/// `a <= q * b < a + b`; it is 0 only when `a` is 0, and never exceeds `a`.
pub proof fn lemma_ceil_div_bounds(a: int, b: int)
    requires
        a >= 0,
        b >= 1,
    ensures
        a <= ceil_div(a, b) * b,
        ceil_div(a, b) * b < a + b,
        ceil_div(a, b) >= 0,
        a > 0 ==> ceil_div(a, b) >= 1,
        ceil_div(a, b) <= a,
{
    let q = ceil_div(a, b);
    lemma_floor_div_bounds(a + b - 1, b);
    assert(q * b <= a + b - 1);
    assert(a + b - 1 < q * b + b);
    if a > 0 && q < 1 {
        assert(q == 0);
        assert(q * b == 0) by (nonlinear_arith)
            requires
                q == 0,
        ;
    }
    if q > a {
        assert(q * b >= (a + 1) * b) by (nonlinear_arith)
            requires
                q >= a + 1,
                b >= 1,
        ;
        assert((a + 1) * b >= a + b) by (nonlinear_arith)
            requires
                a >= 0,
                b >= 1,
        ;
    }
}

/// Ceiling division distributes over adding a multiple of the denominator:
/// `ceil_div(q * b + r, b) == q + ceil_div(r, b)`.
pub proof fn lemma_ceil_div_add_multiple(q: int, r: int, b: int)
    requires
        q >= 0,
        r >= 0,
        b >= 1,
    ensures
        ceil_div(q * b + r, b) == q + ceil_div(r, b),
{
    lemma_hoist_over_denominator(r + b - 1, q, b as nat);
}

/// Division is monotone across different denominators: if `a / b <= c / d`
/// holds of the exact rationals (cross-multiplied), it holds of the floors.
pub proof fn lemma_div_cross_monotone(a: int, b: int, c: int, d: int)
    requires
        a >= 0,
        c >= 0,
        b >= 1,
        d >= 1,
        a * d <= c * b,
    ensures
        a / b <= c / d,
{
    lemma_floor_div_bounds(a, b);
    lemma_floor_div_bounds(c, d);
    assert(a / b <= c / d) by (nonlinear_arith)
        requires
            b >= 1,
            d >= 1,
            a / b >= 0,
            c / d >= 0,
            (a / b) * b <= a,
            c < (c / d) * d + d,
            a * d <= c * b,
    ;
}

/// A floored scaling by `s / t` with `s <= t` never exceeds the input.
pub proof fn lemma_scale_down_le(r: int, s: int, t: int)
    requires
        r >= 0,
        0 <= s <= t,
        t >= 1,
    ensures
        (r * s) / t <= r,
        (r * s) / t >= 0,
        s < t ==> r >= 1 ==> (r * s) / t < r,
{
    lemma_mul_inequality(s, t, r);
    lemma_mul_is_commutative(s, r);
    lemma_mul_is_commutative(t, r);
    lemma_div_is_ordered(r * s, r * t, t);
    lemma_div_by_multiple(r, t);
    lemma_div_pos_is_pos(r * s, t);
    assert(r * s >= 0) by (nonlinear_arith)
        requires
            r >= 0,
            s >= 0,
    ;
    if s < t && r >= 1 {
        assert(r * s < t * r) by (nonlinear_arith)
            requires
                r >= 1,
                0 <= s < t,
        ;
        vstd::arithmetic::div_mod::lemma_multiply_divide_lt(r * s, t, r);
    }
}

/// Scaling by exactly `t / t` is the identity.
pub proof fn lemma_scale_full(r: int, t: int)
    requires
        r >= 0,
        t >= 1,
    ensures
        (r * t) / t == r,
{
    lemma_div_by_multiple(r, t);
}

} // verus!
