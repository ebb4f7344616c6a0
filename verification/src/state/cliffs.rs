use vstd::prelude::*;

verus! {

/// The smaller of two integers.
pub open spec fn min_of(a: int, b: int) -> int {
    if a <= b {
        a
    } else {
        b
    }
}

/// A vesting lockup with `n` periods left is a row of `n` cliffs. The
/// cliff number `k`, counted from 0, unlocks `first + k * period` seconds
/// from now, and counts with that time up to the saturation.
pub open spec fn cliff_seconds(first: int, period: int, saturation: int, k: int) -> int {
    min_of(first + k * period, saturation)
}

/// The seconds that the first `n` cliffs count with, added up one by one.
pub open spec fn cliff_seconds_sum(first: int, period: int, saturation: int, n: nat) -> int
    decreases n,
{
    if n == 0 {
        0
    } else {
        cliff_seconds_sum(first, period, saturation, (n - 1) as nat) + cliff_seconds(
            first,
            period,
            saturation,
            n - 1,
        )
    }
}

/// How many of the first `n` cliffs are counted with their own time:
/// those that unlock no later than the saturation.
pub open spec fn unsaturated_cliffs(first: int, period: int, saturation: int, n: nat) -> int {
    min_of((saturation - first + period) / period, n as int)
}

/// The sum of the cliffs' seconds in closed form: with `q` unsaturated
/// cliffs and `r` saturated ones it is
/// `q * first + period * q * (q - 1) / 2 + r * saturation`.
pub open spec fn closed_form_seconds(first: int, period: int, saturation: int, n: nat) -> int {
    let q = unsaturated_cliffs(first, period, saturation, n);
    let r = n - q;
    q * first + ((q * (q - 1)) / 2) * period + r * saturation
}

/// Half of `q * (q - 1)` grows by `q` when `q` grows by one.
pub proof fn lemma_triangle_step(q: int)
    requires
        q >= 0,
    ensures
        ((q + 1) * q) / 2 == (q * (q - 1)) / 2 + q,
{
    assert((q + 1) * q == q * (q - 1) + 2 * q) by (nonlinear_arith);
    assert((q * (q - 1) + 2 * q) / 2 == (q * (q - 1)) / 2 + q);
}

/// The cliffs below the count `(saturation - first + period) / period`
/// unlock no later than the saturation, all others later.
pub proof fn lemma_saturation_threshold(first: int, period: int, saturation: int, k: int)
    requires
        0 <= first < saturation,
        period > 0,
        k >= 0,
    ensures
        k < (saturation - first + period) / period ==> first + k * period <= saturation,
        k >= (saturation - first + period) / period ==> first + k * period > saturation,
        (saturation - first + period) / period >= 1,
{
    let m = (saturation - first + period) / period;
    let x = saturation - first + period;
    assert(m * period <= x < (m + 1) * period && m >= 1) by (nonlinear_arith)
        requires
            m == x / period,
            period > 0,
            x >= period,
    ;
    if k < m {
        assert(k * period <= (m - 1) * period) by (nonlinear_arith)
            requires
                k <= m - 1,
                period > 0,
        ;
        assert((m - 1) * period == m * period - period) by (nonlinear_arith);
    } else {
        assert(k * period >= m * period) by (nonlinear_arith)
            requires
                k >= m,
                period > 0,
        ;
        assert((m + 1) * period == m * period + period) by (nonlinear_arith);
    }
}

/// The closed form is the sum over the cliffs, to the second.
pub proof fn lemma_closed_form_is_cliff_sum(first: int, period: int, saturation: int, n: nat)
    requires
        0 <= first < saturation,
        period > 0,
    ensures
        closed_form_seconds(first, period, saturation, n) == cliff_seconds_sum(
            first,
            period,
            saturation,
            n,
        ),
    decreases n,
{
    let m = (saturation - first + period) / period;
    lemma_saturation_threshold(first, period, saturation, 0);
    if n == 0 {
        assert(unsaturated_cliffs(first, period, saturation, n) == 0);
        assert(closed_form_seconds(first, period, saturation, n) == 0) by (nonlinear_arith)
            requires
                closed_form_seconds(first, period, saturation, n) == 0 * first + ((0 * (0 - 1))
                    / 2) * period + 0 * saturation,
        ;
    } else {
        let p = (n - 1) as nat;
        lemma_closed_form_is_cliff_sum(first, period, saturation, p);
        lemma_saturation_threshold(first, period, saturation, p as int);
        let q0 = unsaturated_cliffs(first, period, saturation, p);
        let q1 = unsaturated_cliffs(first, period, saturation, n);
        let before = closed_form_seconds(first, period, saturation, p);
        let after = closed_form_seconds(first, period, saturation, n);
        if (p as int) < m {
            assert(q0 == p && q1 == p + 1);
            lemma_triangle_step(p as int);
            let t0 = (q0 * (q0 - 1)) / 2;
            let t1 = (q1 * (q1 - 1)) / 2;
            assert(t1 == t0 + p);
            assert(after == before + first + p * period) by (nonlinear_arith)
                requires
                    before == q0 * first + t0 * period + (p - q0) * saturation,
                    after == q1 * first + t1 * period + (n - q1) * saturation,
                    q0 == p,
                    q1 == p + 1,
                    n == p + 1,
                    t1 == t0 + p,
            ;
            assert(cliff_seconds(first, period, saturation, p as int) == first + p * period);
        } else {
            assert(q0 == m && q1 == m);
            let t = (m * (m - 1)) / 2;
            assert(after == before + saturation) by (nonlinear_arith)
                requires
                    before == m * first + t * period + (p - m) * saturation,
                    after == m * first + t * period + (n - m) * saturation,
                    n == p + 1,
            ;
            assert(cliff_seconds(first, period, saturation, p as int) == saturation);
        }
    }
}

/// No cliff counts with more than the saturation, so `n` cliffs count
/// with no more than `n` times the saturation.
pub proof fn lemma_cliff_sum_bounds(first: int, period: int, saturation: int, n: nat)
    requires
        0 <= first,
        0 <= period,
        0 <= saturation,
    ensures
        0 <= cliff_seconds_sum(first, period, saturation, n) <= n * saturation,
    decreases n,
{
    if n > 0 {
        let p = (n - 1) as nat;
        lemma_cliff_sum_bounds(first, period, saturation, p);
        assert(p * period >= 0) by (nonlinear_arith)
            requires
                p >= 0,
                period >= 0,
        ;
        assert(n * saturation == p * saturation + saturation) by (nonlinear_arith)
            requires
                n == p + 1,
        ;
    } else {
        assert(n * saturation == 0) by (nonlinear_arith)
            requires
                n == 0,
        ;
    }
}

/// Where even the nearest cliff is saturated, all of them are.
pub proof fn lemma_cliff_sum_saturated(first: int, period: int, saturation: int, n: nat)
    requires
        first >= saturation,
        period >= 0,
    ensures
        cliff_seconds_sum(first, period, saturation, n) == n * saturation,
    decreases n,
{
    if n > 0 {
        let p = (n - 1) as nat;
        lemma_cliff_sum_saturated(first, period, saturation, p);
        assert(p * period >= 0) by (nonlinear_arith)
            requires
                p >= 0,
                period >= 0,
        ;
        assert(n * saturation == p * saturation + saturation) by (nonlinear_arith)
            requires
                n == p + 1,
        ;
    } else {
        assert(n * saturation == 0) by (nonlinear_arith)
            requires
                n == 0,
        ;
    }
}

} // verus!
