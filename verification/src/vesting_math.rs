//! Vesting arithmetic of a payment stream.
//!
//! A stream releases `flow_rate` token units per second between its start and
//! its end. Every amount below is the flow rate times a number of whole seconds
//! in a window that is cut off at the end of the stream.
use vstd::prelude::*;

verus! {

/// The smaller of two timestamps.
pub open spec fn min_time(a: u64, b: u64) -> u64 {
    if a < b {
        a
    } else {
        b
    }
}

/// Whole seconds from `from` until `until`, or zero when `until` is not later.
pub open spec fn span(from: u64, until: u64) -> int {
    if until > from {
        until - from
    } else {
        0
    }
}

/// Seconds of flow from `from` until `now`, the flow stopping at `end_time`.
pub open spec fn flowing_seconds(now: u64, end_time: u64, from: u64) -> int {
    span(from, min_time(now, end_time))
}

/// What has accrued since `from` at `flow_rate` per second.
pub open spec fn accrued(flow_rate: i128, now: u64, end_time: u64, from: u64) -> int {
    flow_rate * flowing_seconds(now, end_time, from)
}

/// What the recipient may claim: nothing before the cliff, afterwards what has
/// accrued since the last withdrawal.
pub open spec fn claimable_amount(
    flow_rate: i128,
    now: u64,
    cliff_time: u64,
    end_time: u64,
    last_withdraw_time: u64,
) -> int {
    if now < cliff_time {
        0
    } else {
        accrued(flow_rate, now, end_time, last_withdraw_time)
    }
}

/// What goes back to the sender when the stream stops at `now`: the deposit less
/// everything streamed since the start, never below zero.
pub open spec fn refund_amount(
    deposit: i128,
    flow_rate: i128,
    now: u64,
    end_time: u64,
    start_time: u64,
) -> int {
    let streamed = accrued(flow_rate, now, end_time, start_time);
    if deposit > streamed {
        deposit - streamed
    } else {
        0
    }
}

/// `x` is a value of `i128`.
pub open spec fn fits_i128(x: int) -> bool {
    i128::MIN <= x <= i128::MAX
}

/// Rust's integer division, which rounds towards zero (`b > 0`).
pub open spec fn trunc_div(a: int, b: int) -> int {
    if a >= 0 {
        a / b
    } else {
        -((-a) / b)
    }
}

/// The stream parameters for which the stream's promises are made: a deposit
/// spread over `duration` seconds from `start_time` at the rate that the
/// integer division gives.
pub open spec fn stream_parameters(
    deposit: i128,
    flow_rate: i128,
    start_time: u64,
    end_time: u64,
) -> bool {
    &&& deposit >= 0
    &&& end_time > start_time
    &&& flow_rate == (deposit as int) / ((end_time - start_time) as int)
}

/// Tokens accrued since the last withdrawal, counted up to the stream's end.
pub fn compute_earned(flow_rate: i128, now: u64, end_time: u64, last_withdraw_time: u64) -> (r:
    i128)
    requires
        fits_i128(accrued(flow_rate, now, end_time, last_withdraw_time)),
    ensures
        r == accrued(flow_rate, now, end_time, last_withdraw_time),
        flow_rate >= 0 ==> r >= 0,
{
    let capped = if now < end_time {
        now
    } else {
        end_time
    };
    if capped <= last_withdraw_time {
        assert(flowing_seconds(now, end_time, last_withdraw_time) == 0);
        assert(flow_rate * 0int == 0) by (nonlinear_arith);
        return 0;
    }
    let secs: i128 = (capped - last_withdraw_time) as i128;
    proof {
        if flow_rate >= 0 {
            assert(flow_rate * secs >= 0) by (nonlinear_arith)
                requires
                    flow_rate >= 0,
                    secs >= 0,
            ;
        }
    }
    flow_rate * secs
}

/// Tokens the recipient can claim at `now`: zero before the cliff, then what
/// has accrued since the last withdrawal, counted up to the stream's end.
pub fn compute_claimable(
    flow_rate: i128,
    now: u64,
    cliff_time: u64,
    end_time: u64,
    last_withdraw_time: u64,
) -> (r: i128)
    requires
        fits_i128(claimable_amount(flow_rate, now, cliff_time, end_time, last_withdraw_time)),
    ensures
        r == claimable_amount(flow_rate, now, cliff_time, end_time, last_withdraw_time),
        now < cliff_time ==> r == 0,
        flow_rate >= 0 ==> r >= 0,
{
    if now < cliff_time {
        return 0;
    }
    compute_earned(flow_rate, now, end_time, last_withdraw_time)
}

/// Tokens streamed since the start, counted up to the stream's end.
pub fn compute_total_streamed(flow_rate: i128, now: u64, end_time: u64, start_time: u64) -> (r:
    i128)
    requires
        fits_i128(accrued(flow_rate, now, end_time, start_time)),
    ensures
        r == accrued(flow_rate, now, end_time, start_time),
        flow_rate >= 0 ==> r >= 0,
{
    compute_earned(flow_rate, now, end_time, start_time)
}

/// Tokens returned to the sender when the stream stops at `now`: the deposit
/// less what has been streamed since the start, and never less than zero.
pub fn compute_refund(deposit: i128, flow_rate: i128, now: u64, end_time: u64, start_time: u64) -> (r:
    i128)
    requires
        fits_i128(accrued(flow_rate, now, end_time, start_time)),
        fits_i128(refund_amount(deposit, flow_rate, now, end_time, start_time)),
    ensures
        r == refund_amount(deposit, flow_rate, now, end_time, start_time),
        r >= 0,
{
    let streamed = compute_total_streamed(flow_rate, now, end_time, start_time);
    if deposit > streamed {
        deposit - streamed
    } else {
        0
    }
}

/// At a non-negative rate, fewer seconds release no more: `0 <= rate * k <=
/// rate * d` whenever `0 <= k <= d`.
pub proof fn lemma_rate_times_fewer_seconds(flow_rate: int, k: int, d: int)
    requires
        flow_rate >= 0,
        0 <= k <= d,
    ensures
        0 <= flow_rate * k <= flow_rate * d,
{
    vstd::arithmetic::mul::lemma_mul_inequality(k, d, flow_rate);
    vstd::arithmetic::mul::lemma_mul_is_commutative(k, flow_rate);
    vstd::arithmetic::mul::lemma_mul_is_commutative(d, flow_rate);
    vstd::arithmetic::mul::lemma_mul_nonnegative(flow_rate, k);
}

/// At a non-negative rate, `s` seconds of a `d`-second schedule release no more
/// than the deposit that the rate was divided from.
proof fn lemma_rate_times_seconds(deposit: int, flow_rate: int, s: int, d: int)
    requires
        deposit >= 0,
        d > 0,
        flow_rate == deposit / d,
        0 <= s <= d,
    ensures
        0 <= flow_rate * s <= flow_rate * d <= deposit,
{
    vstd::arithmetic::div_mod::lemma_fundamental_div_mod(deposit, d);
    vstd::arithmetic::div_mod::lemma_mod_pos_bound(deposit, d);
    vstd::arithmetic::div_mod::lemma_div_pos_is_pos(deposit, d);
    lemma_rate_times_fewer_seconds(flow_rate, s, d);
}

/// The seconds of flow counted from a time at or after the start never exceed
/// the stream's duration.
proof fn lemma_flowing_within_duration(now: u64, start_time: u64, end_time: u64, from: u64)
    requires
        start_time <= from,
        start_time < end_time,
    ensures
        0 <= flowing_seconds(now, end_time, from) <= end_time - start_time,
{
}

/// Law: the amount claimable never exceeds the deposit, whenever it is asked
/// and however far withdrawals have advanced the last withdrawal time, for a
/// stream whose rate is its deposit divided by its duration.
pub proof fn law_claimable_within_deposit(
    deposit: i128,
    flow_rate: i128,
    now: u64,
    cliff_time: u64,
    start_time: u64,
    end_time: u64,
    last_withdraw_time: u64,
)
    requires
        stream_parameters(deposit, flow_rate, start_time, end_time),
        start_time <= last_withdraw_time,
    ensures
        0 <= claimable_amount(flow_rate, now, cliff_time, end_time, last_withdraw_time) <= deposit,
{
    lemma_flowing_within_duration(now, start_time, end_time, last_withdraw_time);
    lemma_rate_times_seconds(
        deposit as int,
        flow_rate as int,
        flowing_seconds(now, end_time, last_withdraw_time),
        end_time - start_time,
    );
}

/// Law: at a non-negative rate the amount claimable never decreases as time
/// goes on, the other parameters staying the same.
pub proof fn law_claimable_monotonic(
    flow_rate: i128,
    earlier: u64,
    later: u64,
    cliff_time: u64,
    end_time: u64,
    last_withdraw_time: u64,
)
    requires
        flow_rate >= 0,
        earlier <= later,
    ensures
        claimable_amount(flow_rate, earlier, cliff_time, end_time, last_withdraw_time)
            <= claimable_amount(flow_rate, later, cliff_time, end_time, last_withdraw_time),
{
    let a = flowing_seconds(earlier, end_time, last_withdraw_time);
    let b = flowing_seconds(later, end_time, last_withdraw_time);
    assert(0 <= a <= b);
    lemma_rate_times_fewer_seconds(flow_rate as int, a, b);
}

/// Law: no tokens are made or lost when a stream stops: what has been streamed
/// since the start plus the refund is the deposit.
pub proof fn law_streamed_plus_refund_is_deposit(
    deposit: i128,
    flow_rate: i128,
    now: u64,
    start_time: u64,
    end_time: u64,
)
    requires
        stream_parameters(deposit, flow_rate, start_time, end_time),
    ensures
        accrued(flow_rate, now, end_time, start_time) + refund_amount(
            deposit,
            flow_rate,
            now,
            end_time,
            start_time,
        ) == deposit,
{
    lemma_flowing_within_duration(now, start_time, end_time, start_time);
    lemma_rate_times_seconds(
        deposit as int,
        flow_rate as int,
        flowing_seconds(now, end_time, start_time),
        end_time - start_time,
    );
}

} // verus!
