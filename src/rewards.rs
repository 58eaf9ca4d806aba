use vstd::prelude::*;

use crate::constants::{MIN_WEIGHT_MULTIPLIER, MAX_WEIGHT_MULTIPLIER, PRECISION};
use crate::errors::StakingError;
use crate::state::{StakePool, UserStake};

verus! {

/// `d` clamped into `[lo, hi]`.
pub open spec fn clamp(d: int, lo: int, hi: int) -> int {
    if d < lo {
        lo
    } else if d > hi {
        hi
    } else {
        d
    }
}

/// Lock-duration weight in basis points: 10000 at `min`, rising linearly
/// (with floor division) to 20000 at `max`; 10000 when the range is empty.
pub open spec fn weight_bps(d: int, min: int, max: int) -> int {
    if max == min {
        10000
    } else {
        10000 + (clamp(d, min, max) - min) * 10000 / (max - min)
    }
}

/// Weight multiplier, in basis points, of a stake locked for `lock_duration`
/// in a pool whose locks range over `[min_duration, max_duration]`.
pub fn calculate_weight_multiplier(lock_duration: i64, min_duration: i64, max_duration: i64) -> (r: u64)
    requires
        0 <= min_duration <= max_duration,
    ensures
        r as int == weight_bps(lock_duration as int, min_duration as int, max_duration as int),
        10000 <= r <= 20000,
{
    let duration: i64 = if lock_duration < min_duration {
        min_duration
    } else if lock_duration > max_duration {
        max_duration
    } else {
        lock_duration
    };
    let range: i64 = max_duration - min_duration;
    if range == 0 {
        return MIN_WEIGHT_MULTIPLIER;
    }
    let progress: i64 = duration - min_duration;
    proof {
        lemma_scaled_fraction(progress as int, range as int);
    }
    let progress_bps: u64 = ((progress as u128) * 10000 / (range as u128)) as u64;
    let multiplier_range: u64 = MAX_WEIGHT_MULTIPLIER - MIN_WEIGHT_MULTIPLIER;
    assert(multiplier_range * progress_bps / 10000 == progress_bps) by (nonlinear_arith)
        requires
            multiplier_range == 10000,
    ;
    MIN_WEIGHT_MULTIPLIER + (multiplier_range * progress_bps / 10000)
}

proof fn lemma_scaled_fraction(p: int, range: int)
    requires
        0 <= p <= range,
        range > 0,
    ensures
        0 <= p * 10000 / range <= 10000,
{
    assert(p * 10000 <= range * 10000) by (nonlinear_arith)
        requires
            0 <= p <= range,
    ;
    vstd::arithmetic::div_mod::lemma_div_is_ordered(p * 10000, range * 10000, range);
    vstd::arithmetic::div_mod::lemma_div_multiples_vanish(10000, range);
    vstd::arithmetic::div_mod::lemma_div_pos_is_pos(p * 10000, range);
}

/// The weight lies in `[10000, 20000]` for every duration, is 10000 at the
/// minimum and 20000 at the maximum of a non-empty range, and never decreases
/// as the duration grows.
pub proof fn weight_bounds_and_monotonic(d1: int, d2: int, min: int, max: int)
    requires
        0 <= min <= max,
    ensures
        10000 <= weight_bps(d1, min, max) <= 20000,
        weight_bps(min, min, max) == 10000,
        min < max ==> weight_bps(max, min, max) == 20000,
        d1 <= d2 ==> weight_bps(d1, min, max) <= weight_bps(d2, min, max),
{
    if max > min {
        let c1 = clamp(d1, min, max);
        let c2 = clamp(d2, min, max);
        lemma_scaled_fraction(c1 - min, max - min);
        lemma_scaled_fraction(c2 - min, max - min);
        vstd::arithmetic::div_mod::lemma_div_multiples_vanish(10000, max - min);
        if d1 <= d2 {
            assert((c1 - min) * 10000 <= (c2 - min) * 10000) by (nonlinear_arith)
                requires
                    c1 <= c2,
            ;
            vstd::arithmetic::div_mod::lemma_div_is_ordered((c1 - min) * 10000, (c2 - min) * 10000, max - min);
        }
    }
}

/// Amount of new reward per unit of weighted stake, scaled by `PRECISION`,
/// that accrues in `p` up to `now`.
pub open spec fn reward_increase(p: StakePool, now: int) -> int {
    (now - p.last_reward_time) * p.reward_rate * PRECISION / (p.total_weighted_stake as int)
}

/// Whether advancing `p` to `now` stays within the widened arithmetic.
pub open spec fn advance_fits(p: StakePool, now: int) -> bool {
    let elapsed = now - p.last_reward_time;
    p.total_weighted_stake == 0 || (i64::MIN <= elapsed <= i64::MAX && (elapsed <= 0 || (
    elapsed * p.reward_rate * PRECISION <= u128::MAX && p.accumulated_reward_per_share
        + reward_increase(p, now) <= u128::MAX)))
}

/// The pool after its accumulator is advanced to `now`: with no weighted stake
/// the time moves on and nothing accrues; a time at or before the last update
/// changes nothing.
pub open spec fn advanced(p: StakePool, now: int) -> StakePool {
    if p.total_weighted_stake == 0 {
        StakePool { last_reward_time: now as i64, ..p }
    } else if now - p.last_reward_time <= 0 {
        p
    } else {
        StakePool {
            accumulated_reward_per_share: (p.accumulated_reward_per_share + reward_increase(
                p,
                now,
            )) as u128,
            last_reward_time: now as i64,
            ..p
        }
    }
}

/// Advances the pool's reward accumulator to `current_time`.
pub fn update_rewards(stake_pool: &mut StakePool, current_time: i64) -> (r: Result<(), StakingError>)
    ensures
        r is Ok <==> advance_fits(*old(stake_pool), current_time as int),
        r is Ok ==> *final(stake_pool) == advanced(*old(stake_pool), current_time as int),
        r is Err ==> r == Err::<(), StakingError>(StakingError::MathOverflow) && *final(stake_pool)
            == *old(stake_pool),
{
    if stake_pool.total_weighted_stake == 0 {
        stake_pool.last_reward_time = current_time;
        return Ok(());
    }
    let time_elapsed: i64 = match current_time.checked_sub(stake_pool.last_reward_time) {
        Some(t) => t,
        None => return Err(StakingError::MathOverflow),
    };
    if time_elapsed <= 0 {
        return Ok(());
    }
    let elapsed: u128 = time_elapsed as u128;
    let rate: u128 = stake_pool.reward_rate as u128;
    assert(elapsed * rate <= u128::MAX) by (nonlinear_arith)
        requires
            0 < elapsed <= i64::MAX,
            rate <= u64::MAX,
    ;
    let new_rewards: u128 = elapsed * rate;
    let scaled: u128 = match new_rewards.checked_mul(PRECISION) {
        Some(v) => v,
        None => return Err(StakingError::MathOverflow),
    };
    let increase: u128 = scaled / (stake_pool.total_weighted_stake as u128);
    let acc: u128 = match stake_pool.accumulated_reward_per_share.checked_add(increase) {
        Some(v) => v,
        None => return Err(StakingError::MathOverflow),
    };
    stake_pool.accumulated_reward_per_share = acc;
    stake_pool.last_reward_time = current_time;
    Ok(())
}

/// Accrual of `weighted` units of stake at accumulator value `acc`, unscaled.
pub open spec fn accrued(weighted: int, acc: int) -> int {
    weighted * acc / (PRECISION as int)
}

/// Unclaimed reward of a position: its accrual less its debt, floored at zero
/// and saturated to the reward-amount range.
pub open spec fn pending_of(s: UserStake, acc: int) -> int {
    if s.weighted_stake == 0 {
        0
    } else {
        let p = accrued(s.weighted_stake as int, acc) - s.reward_debt;
        if p < 0 {
            0
        } else if p > u64::MAX {
            u64::MAX as int
        } else {
            p
        }
    }
}

/// Unclaimed reward of `user_stake` at accumulator value `accumulated_reward_per_share`.
pub fn calculate_pending_rewards(user_stake: &UserStake, accumulated_reward_per_share: u128) -> (r:
    Result<u64, StakingError>)
    ensures
        r is Ok <==> (user_stake.weighted_stake == 0 || user_stake.weighted_stake
            * accumulated_reward_per_share <= u128::MAX),
        r is Ok ==> r->Ok_0 as int == pending_of(*user_stake, accumulated_reward_per_share as int),
        r is Err ==> r->Err_0 == StakingError::MathOverflow,
{
    if user_stake.weighted_stake == 0 {
        return Ok(0);
    }
    let product: u128 = match (user_stake.weighted_stake as u128).checked_mul(
        accumulated_reward_per_share,
    ) {
        Some(v) => v,
        None => return Err(StakingError::MathOverflow),
    };
    let accumulated: u128 = product / PRECISION;
    let pending: u128 = match accumulated.checked_sub(user_stake.reward_debt) {
        Some(v) => v,
        None => 0,
    };
    if pending > u64::MAX as u128 {
        Ok(u64::MAX)
    } else {
        Ok(pending as u64)
    }
}

} // verus!

verus! {

/// Advancing the accumulator touches only the accumulator and its clock, and
/// never lowers the accumulator.
pub proof fn lemma_advance_keeps_config(p: StakePool, now: int)
    requires
        advance_fits(p, now),
    ensures
        advanced(p, now).min_lock_duration == p.min_lock_duration,
        advanced(p, now).max_lock_duration == p.max_lock_duration,
        advanced(p, now).total_staked == p.total_staked,
        advanced(p, now).total_weighted_stake == p.total_weighted_stake,
        advanced(p, now).accumulated_reward_per_share >= p.accumulated_reward_per_share,
{
    if p.total_weighted_stake != 0 && now - p.last_reward_time > 0 {
        let e = now - p.last_reward_time;
        assert(e * p.reward_rate * PRECISION >= 0) by (nonlinear_arith)
            requires
                e > 0,
        ;
        vstd::arithmetic::div_mod::lemma_div_pos_is_pos(
            e * p.reward_rate * PRECISION,
            p.total_weighted_stake as int,
        );
    }
}

} // verus!
