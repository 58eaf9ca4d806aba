use vstd::prelude::*;

use crate::calculate_tier;
use crate::constants::PRECISION;
use crate::errors::StakingError;
use crate::rewards::{advance_fits, advanced, calculate_weight_multiplier, update_rewards, weight_bps};
use crate::state::{Address, StakePool, StakingTier, TokenAccount, UserStake, pool_wf, tier_of};

verus! {

/// The accounts a stake touches.
#[derive(Clone, Copy, Debug)]
pub struct Stake {
    /// The staker.
    pub user: Address,
    /// Key of the pool account.
    pub pool_key: Address,
    pub stake_pool: StakePool,
    /// The staker's position; all zero before the first stake.
    pub user_stake: UserStake,
    /// Whether the position account was just created and has never been
    /// staked into. A position emptied by unstaking is not new.
    pub user_stake_is_new: bool,
    /// Address-derivation bump of the position account.
    pub user_stake_bump: u8,
    /// Account the stake is paid from.
    pub user_token_account: TokenAccount,
    /// The pool's stake vault.
    pub stake_vault: TokenAccount,
}

/// Record of a completed stake.
#[derive(Clone, Copy, Debug)]
pub struct StakeEvent {
    pub user: Address,
    pub stake_pool: Address,
    pub amount: u64,
    pub weighted_amount: u64,
    pub lock_duration: i64,
    pub lock_end_time: i64,
    pub new_tier: StakingTier,
    pub total_staked: u64,
    pub timestamp: i64,
}

/// Weighted stake added by staking `amount` for `dur` in pool `p`.
pub open spec fn weighted_amount(p: StakePool, amount: int, dur: int) -> int {
    amount * weight_bps(dur, p.min_lock_duration as int, p.max_lock_duration as int) / 10000
}

/// Why staking `amount` for `dur` at `now` is rejected, if it is.
pub open spec fn stake_rejection(c: Stake, amount: int, dur: int, now: int) -> Option<StakingError> {
    let pool = c.stake_pool;
    let u = c.user_stake;
    if c.user_token_account.mint@ != pool.stake_mint@ {
        Some(StakingError::InvalidMint)
    } else if c.user_token_account.owner@ != c.user@ {
        Some(StakingError::InvalidAuthority)
    } else if c.stake_vault.key@ != pool.stake_vault@ {
        Some(StakingError::InvalidMint)
    } else if pool.paused {
        Some(StakingError::PoolPaused)
    } else if amount == 0 {
        Some(StakingError::InvalidAmount)
    } else if dur < pool.min_lock_duration {
        Some(StakingError::DurationTooShort)
    } else if dur > pool.max_lock_duration {
        Some(StakingError::DurationTooLong)
    } else if !advance_fits(pool, now) {
        Some(StakingError::MathOverflow)
    } else {
        let p = advanced(pool, now);
        let wa = weighted_amount(p, amount, dur);
        let debt = wa * p.accumulated_reward_per_share;
        if wa > u64::MAX || now + dur > i64::MAX || now + dur < i64::MIN || u.staked_amount
            + amount > u64::MAX || u.weighted_stake + wa > u64::MAX || debt > u128::MAX
            || u.reward_debt + debt / (PRECISION as int) > u128::MAX || p.total_staked + amount
            > u64::MAX || p.total_weighted_stake + wa > u64::MAX {
            Some(StakingError::MathOverflow)
        } else {
            None
        }
    }
}

/// The accounts after staking `amount` for `dur` at `now`: the accumulator is
/// advanced; the first stake into a new position opens it; any later one, also
/// into a position emptied by unstaking, keeps its start time and extends the
/// lock only if it would end later; the new weighted stake is priced in at the
/// current accumulator; pool totals grow by the same amounts; the position is
/// no longer new.
pub open spec fn staked(c: Stake, amount: int, dur: int, now: int) -> Stake {
    let p = advanced(c.stake_pool, now);
    let u = c.user_stake;
    let wa = weighted_amount(p, amount, dur);
    let first = c.user_stake_is_new;
    let end = now + dur;
    let extend = first || end > u.lock_end_time;
    Stake {
        stake_pool: StakePool {
            total_staked: (p.total_staked + amount) as u64,
            total_weighted_stake: (p.total_weighted_stake + wa) as u64,
            ..p
        },
        user_stake: UserStake {
            owner: if first { c.user } else { u.owner },
            stake_pool: if first { c.pool_key } else { u.stake_pool },
            stake_start_time: if first { now as i64 } else { u.stake_start_time },
            bump: if first { c.user_stake_bump } else { u.bump },
            lock_duration: if extend { dur as i64 } else { u.lock_duration },
            lock_end_time: if extend { end as i64 } else { u.lock_end_time },
            staked_amount: (u.staked_amount + amount) as u64,
            weighted_stake: (u.weighted_stake + wa) as u64,
            reward_debt: (u.reward_debt + wa * p.accumulated_reward_per_share / (PRECISION as int)) as u128,
            ..u
        },
        user_stake_is_new: false,
        ..c
    }
}

/// Record of staking `amount` for `dur` at `now` from accounts `c`.
pub open spec fn stake_event(c: Stake, amount: int, dur: int, now: int) -> StakeEvent {
    let n = staked(c, amount, dur, now);
    StakeEvent {
        user: c.user,
        stake_pool: c.pool_key,
        amount: amount as u64,
        weighted_amount: weighted_amount(advanced(c.stake_pool, now), amount, dur) as u64,
        lock_duration: dur as i64,
        lock_end_time: n.user_stake.lock_end_time,
        new_tier: tier_of(n.user_stake.staked_amount as int),
        total_staked: n.user_stake.staked_amount,
        timestamp: now as i64,
    }
}

/// Stakes `amount` for `lock_duration` seconds at time `now`. On success the
/// caller transfers `amount` from the user's account into the stake vault; on
/// any error nothing has changed. A weighted amount beyond `u64` is an
/// overflow error rather than a truncation.
pub fn handler(ctx: &mut Stake, amount: u64, lock_duration: i64, now: i64) -> (r: Result<
    StakeEvent,
    StakingError,
>)
    requires
        pool_wf(old(ctx).stake_pool),
    ensures
        match stake_rejection(*old(ctx), amount as int, lock_duration as int, now as int) {
            Some(e) => r == Err::<StakeEvent, StakingError>(e) && *final(ctx) == *old(ctx),
            None => r == Ok::<StakeEvent, StakingError>(
                stake_event(*old(ctx), amount as int, lock_duration as int, now as int),
            ) && *final(ctx) == staked(*old(ctx), amount as int, lock_duration as int, now as int),
        },
        pool_wf(final(ctx).stake_pool),
        final(ctx).stake_pool.accumulated_reward_per_share
            >= old(ctx).stake_pool.accumulated_reward_per_share,
{
    if !ctx.user_token_account.mint.same(&ctx.stake_pool.stake_mint) {
        return Err(StakingError::InvalidMint);
    }
    if !ctx.user_token_account.owner.same(&ctx.user) {
        return Err(StakingError::InvalidAuthority);
    }
    if !ctx.stake_vault.key.same(&ctx.stake_pool.stake_vault) {
        return Err(StakingError::InvalidMint);
    }
    if ctx.stake_pool.paused {
        return Err(StakingError::PoolPaused);
    }
    if amount == 0 {
        return Err(StakingError::InvalidAmount);
    }
    if lock_duration < ctx.stake_pool.min_lock_duration {
        return Err(StakingError::DurationTooShort);
    }
    if lock_duration > ctx.stake_pool.max_lock_duration {
        return Err(StakingError::DurationTooLong);
    }
    let mut pool = ctx.stake_pool;
    update_rewards(&mut pool, now)?;
    proof {
        crate::rewards::lemma_advance_keeps_config(ctx.stake_pool, now as int);
    }
    let weight_multiplier = calculate_weight_multiplier(
        lock_duration,
        pool.min_lock_duration,
        pool.max_lock_duration,
    );
    assert((amount as int) * (weight_multiplier as int) <= u64::MAX as int * 20000) by (nonlinear_arith)
        requires
            weight_multiplier <= 20000,
    ;
    let wide: u128 = (amount as u128) * (weight_multiplier as u128) / 10000;
    if wide > u64::MAX as u128 {
        return Err(StakingError::MathOverflow);
    }
    let weighted: u64 = wide as u64;
    let mut user = ctx.user_stake;
    let new_lock_end: i64 = match now.checked_add(lock_duration) {
        Some(t) => t,
        None => return Err(StakingError::MathOverflow),
    };
    if ctx.user_stake_is_new {
        user.owner = ctx.user;
        user.stake_pool = ctx.pool_key;
        user.stake_start_time = now;
        user.bump = ctx.user_stake_bump;
        user.lock_duration = lock_duration;
        user.lock_end_time = new_lock_end;
    } else if new_lock_end > user.lock_end_time {
        user.lock_end_time = new_lock_end;
        user.lock_duration = lock_duration;
    }
    user.staked_amount = match user.staked_amount.checked_add(amount) {
        Some(v) => v,
        None => return Err(StakingError::MathOverflow),
    };
    user.weighted_stake = match user.weighted_stake.checked_add(weighted) {
        Some(v) => v,
        None => return Err(StakingError::MathOverflow),
    };
    let debt_product: u128 = match (weighted as u128).checked_mul(pool.accumulated_reward_per_share) {
        Some(v) => v,
        None => return Err(StakingError::MathOverflow),
    };
    user.reward_debt = match user.reward_debt.checked_add(debt_product / PRECISION) {
        Some(v) => v,
        None => return Err(StakingError::MathOverflow),
    };
    pool.total_staked = match pool.total_staked.checked_add(amount) {
        Some(v) => v,
        None => return Err(StakingError::MathOverflow),
    };
    pool.total_weighted_stake = match pool.total_weighted_stake.checked_add(weighted) {
        Some(v) => v,
        None => return Err(StakingError::MathOverflow),
    };
    ctx.stake_pool = pool;
    ctx.user_stake = user;
    ctx.user_stake_is_new = false;
    let new_tier = calculate_tier(user.staked_amount);
    Ok(
        StakeEvent {
            user: ctx.user,
            stake_pool: ctx.pool_key,
            amount,
            weighted_amount: weighted,
            lock_duration,
            lock_end_time: user.lock_end_time,
            new_tier,
            total_staked: user.staked_amount,
            timestamp: now,
        },
    )
}

} // verus!
