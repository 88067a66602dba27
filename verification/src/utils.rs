//! The EMA engine: an exponential moving average over a sequence of
//! closing prices, all in cents.
//!
//! The recurrence is the standard one with smoothing constant
//! `k = 2 / (period + 1)`, carried out in integer arithmetic:
//! `next = (2 * price + (period - 1) * prev) / (period + 1)`, the quotient
//! truncated. The state is seeded with the first price, and the first price
//! is then fed once more before the whole series is processed — for the
//! seed value that extra step is an exact no-op, which is proved below.

use vstd::prelude::*;
use vstd::arithmetic::div_mod::lemma_div_is_ordered;
use vstd::arithmetic::div_mod::lemma_div_multiples_vanish;

verus! {

/// One step of the EMA recurrence. Meaningful for `period >= 1` and
/// non-negative arguments.
pub open spec fn ema_step(period: int, prev: int, price: int) -> int {
    (2 * price + (period - 1) * prev) / (period + 1)
}

/// The EMA state after the first `i` prices have been processed, the state
/// having been seeded with `prices[0]`.
pub open spec fn ema_state(prices: Seq<u64>, period: int, i: int) -> int
    decreases i,
{
    if i <= 0 {
        prices[0] as int
    } else {
        ema_step(period, ema_state(prices, period, i - 1), prices[i - 1] as int)
    }
}

/// The window of EMA values that the engine reports: the values after each
/// of the last `min(5, len)` prices, oldest first.
pub open spec fn recent_ema(prices: Seq<u64>, period: int) -> Seq<int> {
    let n = prices.len() as int;
    let k = if n > 5 { 5int } else { n };
    Seq::new(k as nat, |j: int| ema_state(prices, period, n - k + j + 1))
}

/// A step stays within the bounds of its arguments: the new state is a
/// weighted mean of `prev` and `price`.
proof fn lemma_ema_step_bounds(period: int, prev: int, price: int, bound: int)
    requires
        period >= 1,
        0 <= prev <= bound,
        0 <= price <= bound,
    ensures
        0 <= ema_step(period, prev, price) <= bound,
{
    let num = 2 * price + (period - 1) * prev;
    assert(0 <= 2 * price + (period - 1) * prev <= (period + 1) * bound) by (nonlinear_arith)
        requires
            period >= 1,
            0 <= prev <= bound,
            0 <= price <= bound,
    ;
    lemma_div_is_ordered(num, (period + 1) * bound, period + 1);
    lemma_div_multiples_vanish(bound, period + 1);
    lemma_div_is_ordered(0, num, period + 1);
}

/// Feeding the state's own value through a step leaves it unchanged: the
/// numerator is then exactly `(period + 1) * prev`.
proof fn lemma_ema_step_fixed(period: int, prev: int)
    requires
        period >= 1,
        0 <= prev,
    ensures
        ema_step(period, prev, prev) == prev,
{
    assert(2 * prev + (period - 1) * prev == (period + 1) * prev) by (nonlinear_arith);
    lemma_div_multiples_vanish(prev, period + 1);
}

/// One step of the recurrence, executed in 128-bit arithmetic so that no
/// intermediate overflows.
fn ema_step_exec(period: usize, prev: u64, price: u64) -> (r: u64)
    requires
        period >= 1,
    ensures
        r as int == ema_step(period as int, prev as int, price as int),
{
    let p: u128 = period as u128;
    proof {
        assert((p - 1) * (prev as u128) <= 0xFFFF_FFFF_FFFF_FFFFu128 * 0xFFFF_FFFF_FFFF_FFFFu128)
            by (nonlinear_arith)
            requires
                p >= 1,
                p <= 0x1_0000_0000_0000_0000u128,
                prev <= 0xFFFF_FFFF_FFFF_FFFFu64,
        ;
        lemma_ema_step_bounds(period as int, prev as int, price as int, u64::MAX as int);
    }
    let num: u128 = 2 * (price as u128) + (p - 1) * (prev as u128);
    let q: u128 = num / (p + 1);
    proof {
        assert(q <= u64::MAX as u128);
    }
    q as u64
}

/// Compute the EMA of `prices` and report the window of the most recent
/// values, oldest first: all of them if fewer than five exist, else the
/// last five. Absent exactly when there are fewer prices than the period
/// demands.
pub fn calculate_ema(prices: &Vec<u64>, period: usize) -> (r: Option<Vec<u64>>)
    requires
        period >= 1,
    ensures
        r is None <==> prices@.len() < period,
        r is Some ==> r->Some_0@.len() == recent_ema(prices@, period as int).len(),
        r is Some ==> forall|j: int|
            0 <= j < r->Some_0@.len() ==> r->Some_0@[j] == recent_ema(prices@, period as int)[j],
{
    if prices.len() < period {
        return None;
    }
    let ghost pseq = prices@;
    let ghost per = period as int;
    let mut state: u64 = prices[0];
    proof {
        lemma_ema_step_fixed(per, state as int);
    }
    state = ema_step_exec(period, state, prices[0]);
    assert(state as int == ema_state(pseq, per, 0));

    let mut out: Vec<u64> = Vec::new();
    let mut i: usize = 0;
    while i < prices.len()
        invariant
            period >= 1,
            i <= prices@.len(),
            pseq == prices@,
            per == period as int,
            state as int == ema_state(pseq, per, i as int),
            out@.len() == i as int,
            forall|m: int| 0 <= m < i as int ==> out@[m] as int == ema_state(pseq, per, m + 1),
        decreases prices@.len() - i as int,
    {
        let v = ema_step_exec(period, state, prices[i]);
        out.push(v);
        state = v;
        i += 1;
    }

    let start: usize = if out.len() > 5 {
        out.len() - 5
    } else {
        0
    };
    let mut recent: Vec<u64> = Vec::new();
    let mut j: usize = start;
    while j < out.len()
        invariant
            start <= j <= out@.len(),
            out@.len() == pseq.len(),
            start as int == if pseq.len() > 5 { pseq.len() - 5 } else { 0int },
            forall|m: int| 0 <= m < out@.len() ==> out@[m] as int == ema_state(pseq, per, m + 1),
            recent@.len() == j - start,
            forall|m: int| 0 <= m < recent@.len() ==> recent@[m] == out@[start as int + m],
        decreases out@.len() - j as int,
    {
        let v = out[j];
        recent.push(v);
        j += 1;
    }
    proof {
        let spec_window = recent_ema(pseq, per);
        assert(recent@.len() == spec_window.len());
        assert forall|m: int| 0 <= m < recent@.len() implies recent@[m] == spec_window[m] by {
            assert(recent@[m] == out@[start as int + m]);
        }
    }
    Some(recent)
}

} // verus!
