//! Division rounded to the nearest integer, the one rounding rule of the
//! colour arithmetic, and the facts about it that the conversions rest on.

use vstd::prelude::*;
use vstd::arithmetic::div_mod::{lemma_fundamental_div_mod, lemma_mod_bound};

verus! {

/// `n / d` rounded to the nearest integer, a tie going upward. Meant for
/// `d > 0`.
pub open spec fn round_div(n: int, d: int) -> int {
    (2 * n + d) / (2 * d)
}

/// The rounded quotient `q` is the only integer with
/// `2dq <= 2n + d < 2dq + 2d`.
pub proof fn lemma_round_div_bounds(n: int, d: int)
    requires
        d > 0,
    ensures
        2 * (d * round_div(n, d)) <= 2 * n + d < 2 * (d * round_div(n, d)) + 2 * d,
{
    let x = 2 * n + d;
    let q = x / (2 * d);
    lemma_fundamental_div_mod(x, 2 * d);
    lemma_mod_bound(x, 2 * d);
    assert((2 * d) * q == 2 * (d * q)) by (nonlinear_arith);
}

/// Any integer inside the bounds of `lemma_round_div_bounds` is the rounded
/// quotient.
pub proof fn lemma_round_div_unique(n: int, d: int, q: int)
    requires
        d > 0,
        2 * (d * q) <= 2 * n + d < 2 * (d * q) + 2 * d,
    ensures
        round_div(n, d) == q,
{
    let r = round_div(n, d);
    lemma_round_div_bounds(n, d);
    assert(r == q) by (nonlinear_arith)
        requires
            d > 0,
            2 * (d * q) <= 2 * n + d < 2 * (d * q) + 2 * d,
            2 * (d * r) <= 2 * n + d < 2 * (d * r) + 2 * d,
    ;
}

/// Rounding keeps the order of the numerators.
pub proof fn lemma_round_div_monotonic(a: int, b: int, d: int)
    requires
        d > 0,
        a <= b,
    ensures
        round_div(a, d) <= round_div(b, d),
{
    let p = round_div(a, d);
    let q = round_div(b, d);
    lemma_round_div_bounds(a, d);
    lemma_round_div_bounds(b, d);
    assert(p <= q) by (nonlinear_arith)
        requires
            d > 0,
            a <= b,
            2 * (d * p) <= 2 * a + d,
            2 * b + d < 2 * (d * q) + 2 * d,
    ;
}

/// A multiple of the divisor divides exactly.
pub proof fn lemma_round_div_exact(k: int, d: int)
    requires
        d > 0,
    ensures
        round_div(k * d, d) == k,
{
    assert(d * k == k * d) by (nonlinear_arith);
    lemma_round_div_unique(k * d, d, k);
}

/// Scaling `n` from a grid of `d` steps to a finer grid of `h` steps and
/// back loses nothing.
pub proof fn lemma_rescale_round_trip(n: int, d: int, h: int)
    requires
        0 < d <= h,
    ensures
        round_div(d * round_div(h * n, d), h) == n,
{
    let q = round_div(h * n, d);
    lemma_round_div_bounds(h * n, d);
    if d == h {
        lemma_round_div_exact(n, d);
        assert(h * n == n * d) by (nonlinear_arith)
            requires
                d == h,
        ;
        assert(d * q == q * d) by (nonlinear_arith);
        lemma_round_div_exact(q, d);
    } else {
        assert(2 * (h * n) <= 2 * (d * q) + h < 2 * (h * n) + 2 * h);
        lemma_round_div_unique(d * q, h, n);
    }
}

/// The same round trip for a quantity that was negated on the fine grid.
pub proof fn lemma_rescale_round_trip_negated(n: int, d: int, h: int)
    requires
        0 < d <= h,
    ensures
        round_div(d * (-round_div(h * n, d)), h) == -n,
{
    let q = round_div(h * n, d);
    lemma_round_div_bounds(h * n, d);
    assert(d * (-q) == -(d * q)) by (nonlinear_arith);
    assert(h * (-n) == -(h * n)) by (nonlinear_arith);
    lemma_round_div_unique(d * (-q), h, -n);
}

/// Rounding `-a / d` for `a >= 0`, written with non-negative operands only.
pub proof fn lemma_round_div_of_negative(a: int, d: int)
    requires
        d > 0,
        a >= 0,
    ensures
        round_div(-a, d) == -((2 * a + d - 1) / (2 * d)),
{
    let x = 2 * a + d - 1;
    let k = x / (2 * d);
    lemma_fundamental_div_mod(x, 2 * d);
    lemma_mod_bound(x, 2 * d);
    assert((2 * d) * k == 2 * (d * k)) by (nonlinear_arith);
    assert(d * (-k) == -(d * k)) by (nonlinear_arith);
    lemma_round_div_unique(-a, d, -k);
}

/// Numerators closer than the divisor round to neighbouring integers.
pub proof fn lemma_round_div_close(a: int, b: int, d: int)
    requires
        d > 0,
        a - d < b < a + d,
    ensures
        round_div(a, d) - 1 <= round_div(b, d) <= round_div(a, d) + 1,
{
    let p = round_div(a, d);
    let q = round_div(b, d);
    lemma_round_div_bounds(a, d);
    lemma_round_div_bounds(b, d);
    assert(p - 1 <= q <= p + 1) by (nonlinear_arith)
        requires
            d > 0,
            a - d < b < a + d,
            2 * (d * p) <= 2 * a + d < 2 * (d * p) + 2 * d,
            2 * (d * q) <= 2 * b + d < 2 * (d * q) + 2 * d,
    ;
}

/// The rounded quotient of non-negative operands, computed in `u32`.
pub(crate) fn rounded_quotient(n: u32, d: u32) -> (q: u32)
    requires
        d > 0,
        2 * n + d <= u32::MAX,
        2 * d <= u32::MAX,
    ensures
        q == round_div(n as int, d as int),
{
    (2 * n + d) / (2 * d)
}

} // verus!
