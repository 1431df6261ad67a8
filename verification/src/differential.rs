//! The vesting formulas written a second time, from the deposit and the
//! duration instead of the flow rate and with different control flow. They are
//! checked against the functions of `vesting_math`: each one's contract states
//! the value that those give at the rate `deposit / duration_secs`.
use crate::vesting_math::{accrued, claimable_amount, fits_i128, refund_amount, trunc_div};
use vstd::prelude::*;

verus! {

/// The rate of a deposit spread over `duration_secs` seconds, as the integer
/// division computes it.
pub open spec fn rate_of(deposit: i128, duration_secs: u64) -> i128 {
    trunc_div(deposit as int, duration_secs as int) as i128
}

/// The rate is a value of `i128`: it is no larger in size than the deposit.
proof fn lemma_rate_fits(deposit: i128, duration_secs: u64)
    requires
        duration_secs > 0,
    ensures
        fits_i128(trunc_div(deposit as int, duration_secs as int)),
        rate_of(deposit, duration_secs) == trunc_div(deposit as int, duration_secs as int),
{
    let d = duration_secs as int;
    if deposit >= 0 {
        vstd::arithmetic::div_mod::lemma_div_is_ordered_by_denominator(deposit as int, 1, d);
        vstd::arithmetic::div_mod::lemma_div_pos_is_pos(deposit as int, d);
    } else {
        vstd::arithmetic::div_mod::lemma_div_is_ordered_by_denominator(-deposit, 1, d);
        vstd::arithmetic::div_mod::lemma_div_pos_is_pos(-deposit, d);
    }
}

/// The integer division of a deposit by a positive duration.
fn rate(deposit: i128, duration_secs: u64) -> (r: i128)
    requires
        duration_secs > 0,
    ensures
        r == rate_of(deposit, duration_secs),
        r as int == trunc_div(deposit as int, duration_secs as int),
{
    proof {
        lemma_rate_fits(deposit, duration_secs);
    }
    deposit / (duration_secs as i128)
}

/// The claimable amount computed from the deposit and the duration: zero before
/// the cliff or when the rate is zero, else the rate times the seconds from the
/// last withdrawal to `now`, cut off at the end. It equals what
/// `compute_claimable` gives at the rate `deposit / duration_secs`. Before the
/// cliff it returns zero without dividing, so the duration may then be zero.
pub fn sdk_compute_claimable(
    deposit: i128,
    duration_secs: u64,
    now: u64,
    cliff_time: u64,
    end_time: u64,
    last_withdraw_time: u64,
) -> (r: i128)
    requires
        now < cliff_time || duration_secs > 0,
        fits_i128(
            claimable_amount(
                rate_of(deposit, duration_secs),
                now,
                cliff_time,
                end_time,
                last_withdraw_time,
            ),
        ),
    ensures
        r == claimable_amount(
            rate_of(deposit, duration_secs),
            now,
            cliff_time,
            end_time,
            last_withdraw_time,
        ),
        now < cliff_time ==> r == 0,
{
    if now < cliff_time {
        return 0;
    }
    let rate = rate(deposit, duration_secs);
    if rate == 0 {
        assert(0int * accrued(0, now, end_time, last_withdraw_time) == 0);
        return 0;
    }
    let capped = if now < end_time {
        now
    } else {
        end_time
    };
    if capped <= last_withdraw_time {
        assert(rate * 0int == 0) by (nonlinear_arith);
        return 0;
    }
    let secs = capped - last_withdraw_time;
    rate * (secs as i128)
}

/// The amount accrued since the last withdrawal, computed from the deposit and
/// the duration. It equals what `compute_earned` gives at the rate
/// `deposit / duration_secs`.
pub fn sdk_compute_earned(
    deposit: i128,
    duration_secs: u64,
    now: u64,
    end_time: u64,
    last_withdraw_time: u64,
) -> (r: i128)
    requires
        duration_secs > 0,
        fits_i128(accrued(rate_of(deposit, duration_secs), now, end_time, last_withdraw_time)),
    ensures
        r == accrued(rate_of(deposit, duration_secs), now, end_time, last_withdraw_time),
{
    let rate = rate(deposit, duration_secs);
    if rate == 0 {
        assert(0int * accrued(0, now, end_time, last_withdraw_time) == 0);
        return 0;
    }
    let capped = if now > end_time {
        end_time
    } else {
        now
    };
    if last_withdraw_time >= capped {
        assert(rate * 0int == 0) by (nonlinear_arith);
        return 0;
    }
    rate * ((capped - last_withdraw_time) as i128)
}

/// The refund computed from the deposit and the duration: the whole deposit
/// when the rate is zero, else the deposit less what has streamed since the
/// start, never below zero. For a deposit that is not negative it equals what
/// `compute_refund` gives at the rate `deposit / duration_secs`.
pub fn sdk_compute_refund(
    deposit: i128,
    duration_secs: u64,
    now: u64,
    end_time: u64,
    start_time: u64,
) -> (r: i128)
    requires
        duration_secs > 0,
        fits_i128(accrued(rate_of(deposit, duration_secs), now, end_time, start_time)),
        fits_i128(refund_amount(deposit, rate_of(deposit, duration_secs), now, end_time, start_time)),
    ensures
        r == (if rate_of(deposit, duration_secs) == 0 {
            deposit as int
        } else {
            refund_amount(deposit, rate_of(deposit, duration_secs), now, end_time, start_time)
        }),
        deposit >= 0 ==> r == refund_amount(
            deposit,
            rate_of(deposit, duration_secs),
            now,
            end_time,
            start_time,
        ),
{
    let rate = rate(deposit, duration_secs);
    if rate == 0 {
        assert(0int * accrued(0, now, end_time, start_time) == 0);
        return deposit;
    }
    let capped = if now > end_time {
        end_time
    } else {
        now
    };
    let streamed_secs = if capped > start_time {
        capped - start_time
    } else {
        0
    };
    assert(rate * 0int == 0) by (nonlinear_arith);
    let total_streamed = rate * (streamed_secs as i128);
    if deposit > total_streamed {
        deposit - total_streamed
    } else {
        0
    }
}

} // verus!
