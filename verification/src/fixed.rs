//! Fixed-point arithmetic of the playback engine.
//!
//! A displacement scaled by the sensitivity is a whole number of millionths
//! of a device unit. Division rounds toward zero, as the conversion of an
//! accumulator to whole units does.

use vstd::prelude::*;
use vstd::arithmetic::div_mod::{
    lemma_div_is_ordered,
    lemma_div_multiples_vanish,
    lemma_fundamental_div_mod,
    lemma_mod_bound,
};
use vstd::arithmetic::mul::{lemma_mul_inequality, lemma_mul_is_commutative, lemma_mul_nonnegative};

verus! {

/// One device unit, in the units of the accumulator (millionths).
pub const ONE: i64 = 1000000;

/// Half a device unit: the jitter of one step lies in `[-HALF, HALF)`.
pub const HALF: i64 = 500000;

/// `a / d` rounded toward zero, for a positive `d`.
pub open spec fn trunc_div(a: int, d: int) -> int {
    if a >= 0 {
        a / d
    } else {
        -((-a) / d)
    }
}

/// What `trunc_div` leaves over: `a - trunc_div(a, d) * d`.
pub open spec fn trunc_rem(a: int, d: int) -> int {
    a - trunc_div(a, d) * d
}

/// The part of `total` that is due after `k` of `n` equal steps.
pub open spec fn progress(total: int, k: int, n: int) -> int {
    trunc_div(total * k, n)
}

/// The share of step `k` (counted from zero) of `total`, subdivided into `n`
/// steps: the shares of all `n` steps add up to `total`.
pub open spec fn increment(total: int, k: int, n: int) -> int {
    progress(total, k + 1, n) - progress(total, k, n)
}

/// The remainder of `trunc_div` is smaller than the divisor in magnitude and
/// has the sign of the dividend.
pub proof fn lemma_trunc_rem_bound(a: int, d: int)
    requires
        d > 0,
    ensures
        -d < trunc_rem(a, d) < d,
        a >= 0 ==> trunc_rem(a, d) >= 0,
        a <= 0 ==> trunc_rem(a, d) <= 0,
        trunc_div(a, d) * d + trunc_rem(a, d) == a,
{
    if a >= 0 {
        lemma_fundamental_div_mod(a, d);
        lemma_mod_bound(a, d);
        lemma_mul_is_commutative(d, a / d);
    } else {
        let b = -a;
        lemma_fundamental_div_mod(b, d);
        lemma_mod_bound(b, d);
        lemma_mul_is_commutative(d, b / d);
        assert((-(b / d)) * d == -((b / d) * d)) by (nonlinear_arith);
    }
}

/// Nothing is due before the first step, all of `total` after the last.
pub proof fn lemma_progress_ends(total: int, n: int)
    requires
        n > 0,
    ensures
        progress(total, 0, n) == 0,
        progress(total, n, n) == total,
{
    assert(total * 0 == 0) by (nonlinear_arith);
    assert(0int / n == 0) by (nonlinear_arith)
        requires
            n > 0,
    ;
    if total >= 0 {
        lemma_mul_nonnegative(total, n);
        lemma_div_multiples_vanish(total, n);
        lemma_mul_is_commutative(total, n);
    } else {
        assert(total * n < 0) by (nonlinear_arith)
            requires
                total < 0,
                n > 0,
        ;
        assert(-(total * n) == n * (-total)) by (nonlinear_arith);
        lemma_div_multiples_vanish(-total, n);
    }
}

/// What is due never exceeds `total` in magnitude and has its sign.
pub proof fn lemma_progress_bound(total: int, k: int, n: int)
    requires
        n > 0,
        0 <= k <= n,
    ensures
        total >= 0 ==> 0 <= progress(total, k, n) <= total,
        total <= 0 ==> total <= progress(total, k, n) <= 0,
{
    lemma_progress_ends(total, n);
    if total >= 0 {
        lemma_mul_nonnegative(total, k);
        lemma_mul_inequality(k, n, total);
        lemma_mul_is_commutative(total, k);
        lemma_mul_is_commutative(total, n);
        lemma_div_is_ordered(total * k, total * n, n);
        lemma_div_is_ordered(0, total * k, n);
        assert(0int / n == 0) by (nonlinear_arith)
            requires
                n > 0,
        ;
    } else {
        let t = -total;
        assert(total * k == -(t * k)) by (nonlinear_arith)
            requires
                t == -total,
        ;
        assert(total * n == -(t * n)) by (nonlinear_arith)
            requires
                t == -total,
        ;
        lemma_mul_nonnegative(t, k);
        lemma_mul_inequality(k, n, t);
        lemma_mul_is_commutative(t, k);
        lemma_mul_is_commutative(t, n);
        lemma_div_is_ordered(t * k, t * n, n);
        lemma_div_is_ordered(0, t * k, n);
        lemma_div_multiples_vanish(t, n);
        assert(0int / n == 0) by (nonlinear_arith)
            requires
                n > 0,
        ;
    }
}

/// `trunc_div(a, d)` on machine integers.
pub(crate) fn trunc_div_i128(a: i128, d: i128) -> (q: i128)
    requires
        d > 0,
        a > i128::MIN,
    ensures
        q == trunc_div(a as int, d as int),
{
    a / d
}

/// What is due of `total` after `k` of `n` steps.
pub(crate) fn progress_of(total: i64, k: u32, n: u32) -> (due: i64)
    requires
        n > 0,
        k <= n,
        total > i64::MIN,
    ensures
        due == progress(total as int, k as int, n as int),
{
    proof {
        lemma_progress_bound(total as int, k as int, n as int);
        assert(-0x8000_0000_0000_0000_0000_0000 < total * k < 0x8000_0000_0000_0000_0000_0000)
            by (nonlinear_arith)
            requires
                -0x8000_0000_0000_0000 < total < 0x8000_0000_0000_0000,
                0 <= k < 0x1_0000_0000,
        ;
    }
    let product: i128 = (total as i128) * (k as i128);
    let due: i128 = trunc_div_i128(product, n as i128);
    due as i64
}

} // verus!
