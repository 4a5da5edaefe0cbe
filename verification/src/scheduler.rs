//! The vesting scheduler: a pure function from schedule parameters,
//! total allocation and current time to the cumulative vested amount.

use vstd::arithmetic::div_mod::{lemma_div_is_ordered, lemma_multiply_divide_le};
use vstd::arithmetic::mul::{lemma_mul_inequality, lemma_mul_is_commutative};
use vstd::prelude::*;

verus! {

/// Seconds elapsed since `start_time`, floored at zero so that a claim
/// before the nominal start of a schedule never produces a negative
/// elapsed time.
pub open spec fn spec_elapsed(start_time: i64, now: i64) -> int {
    if now - start_time > 0 {
        now - start_time
    } else {
        0
    }
}

/// Schedule duration, floored at one so that a degenerate schedule with
/// `end_time <= start_time` never produces a division by zero.
pub open spec fn spec_duration(start_time: i64, end_time: i64) -> int {
    if end_time - start_time > 1 {
        end_time - start_time
    } else {
        1
    }
}

/// `total_allocation * elapsed`, saturated at `u64::MAX` as the
/// executable saturating multiplication is.
pub open spec fn spec_scaled(total_allocation: u64, elapsed: int) -> int {
    if total_allocation * elapsed > u64::MAX {
        u64::MAX as int
    } else {
        total_allocation * elapsed
    }
}

/// Cumulative amount of `total_allocation` unlocked at time `now`:
/// nothing before the cliff, everything from `end_time` on, and the
/// time-proportional share (truncating integer division) in between.
pub open spec fn spec_vested_amount(
    total_allocation: u64,
    start_time: i64,
    cliff_time: i64,
    end_time: i64,
    now: i64,
) -> u64 {
    if now < cliff_time {
        0u64
    } else if now >= end_time {
        total_allocation
    } else {
        (spec_scaled(total_allocation, spec_elapsed(start_time, now)) / spec_duration(
            start_time,
            end_time,
        )) as u64
    }
}

/// In the proportional branch the elapsed time is strictly below the
/// duration, which is what keeps the vested amount within the allocation.
proof fn lemma_elapsed_below_duration(start_time: i64, end_time: i64, now: i64)
    requires
        now < end_time,
    ensures
        0 <= spec_elapsed(start_time, now) < spec_duration(start_time, end_time),
{
}

/// The vested amount never exceeds the total allocation, for every
/// schedule, even a misconfigured one.
pub proof fn lemma_vested_bounds(
    total_allocation: u64,
    start_time: i64,
    cliff_time: i64,
    end_time: i64,
    now: i64,
)
    ensures
        spec_vested_amount(total_allocation, start_time, cliff_time, end_time, now)
            <= total_allocation,
{
    if now < cliff_time || now >= end_time {
    } else {
        let elapsed = spec_elapsed(start_time, now);
        let duration = spec_duration(start_time, end_time);
        let scaled = spec_scaled(total_allocation, elapsed);
        lemma_elapsed_below_duration(start_time, end_time, now);
        lemma_mul_is_commutative(total_allocation as int, elapsed);
        lemma_mul_inequality(elapsed, duration, total_allocation as int);
        lemma_mul_is_commutative(duration, total_allocation as int);
        assert(scaled <= duration * (total_allocation as int));
        lemma_multiply_divide_le(scaled, duration, total_allocation as int);
        assert(scaled / duration >= 0) by {
            lemma_div_is_ordered(0, scaled, duration);
        }
    }
}

/// The vested amount is monotonically non-decreasing in `now`, for every
/// schedule, even a misconfigured one.
pub proof fn lemma_vested_monotonic(
    total_allocation: u64,
    start_time: i64,
    cliff_time: i64,
    end_time: i64,
    now_earlier: i64,
    now_later: i64,
)
    requires
        now_earlier <= now_later,
    ensures
        spec_vested_amount(total_allocation, start_time, cliff_time, end_time, now_earlier)
            <= spec_vested_amount(total_allocation, start_time, cliff_time, end_time, now_later),
{
    let v1 = spec_vested_amount(total_allocation, start_time, cliff_time, end_time, now_earlier);
    let v2 = spec_vested_amount(total_allocation, start_time, cliff_time, end_time, now_later);
    if now_earlier < cliff_time {
        assert(v1 == 0);
    } else if now_earlier >= end_time {
        assert(v1 == total_allocation && v2 == total_allocation);
    } else if now_later >= end_time {
        lemma_vested_bounds(total_allocation, start_time, cliff_time, end_time, now_earlier);
    } else {
        let e1 = spec_elapsed(start_time, now_earlier);
        let e2 = spec_elapsed(start_time, now_later);
        let duration = spec_duration(start_time, end_time);
        lemma_mul_inequality(e1, e2, total_allocation as int);
        lemma_mul_is_commutative(e1, total_allocation as int);
        lemma_mul_is_commutative(e2, total_allocation as int);
        let s1 = spec_scaled(total_allocation, e1);
        let s2 = spec_scaled(total_allocation, e2);
        assert(s1 <= s2);
        lemma_div_is_ordered(s1, s2, duration);
        lemma_vested_bounds(total_allocation, start_time, cliff_time, end_time, now_earlier);
        lemma_vested_bounds(total_allocation, start_time, cliff_time, end_time, now_later);
    }
}

/// Nothing vests before the cliff, and everything is vested from
/// `end_time` on, exactly: reaching the end releases the total with no
/// rounding short-fall from the proportional formula.
pub proof fn lemma_vested_at_boundaries(
    total_allocation: u64,
    start_time: i64,
    cliff_time: i64,
    end_time: i64,
    now: i64,
)
    requires
        start_time <= cliff_time <= end_time,
    ensures
        now < cliff_time ==> spec_vested_amount(
            total_allocation,
            start_time,
            cliff_time,
            end_time,
            now,
        ) == 0,
        now >= end_time ==> spec_vested_amount(
            total_allocation,
            start_time,
            cliff_time,
            end_time,
            now,
        ) == total_allocation,
{
}

/// Computes the cumulative vested amount at `now`.
///
/// Pure and total: any inputs are accepted, the arithmetic saturates
/// instead of wrapping or panicking, and identical inputs always give
/// identical outputs.
pub fn vested_amount(
    total_allocation: u64,
    start_time: i64,
    cliff_time: i64,
    end_time: i64,
    now: i64,
) -> (vested: u64)
    ensures
        vested == spec_vested_amount(total_allocation, start_time, cliff_time, end_time, now),
        vested <= total_allocation,
{
    proof {
        lemma_vested_bounds(total_allocation, start_time, cliff_time, end_time, now);
    }
    if now < cliff_time {
        return 0;
    }
    if now >= end_time {
        return total_allocation;
    }
    let elapsed_wide: i128 = now as i128 - start_time as i128;
    let elapsed: u64 = if elapsed_wide > 0 {
        elapsed_wide as u64
    } else {
        0
    };
    let duration_wide: i128 = end_time as i128 - start_time as i128;
    let duration: u64 = if duration_wide > 1 {
        duration_wide as u64
    } else {
        1
    };
    assert(elapsed == spec_elapsed(start_time, now));
    assert(duration == spec_duration(start_time, end_time));
    let scaled: u64 = match total_allocation.checked_mul(elapsed) {
        Some(product) => product,
        None => u64::MAX,
    };
    assert(scaled == spec_scaled(total_allocation, elapsed as int));
    scaled / duration
}

} // verus!
