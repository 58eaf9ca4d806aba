use vstd::prelude::*;

use crate::errors::StakingError;
use crate::state::{Address, StakePool, pool_wf};

verus! {

/// The accounts that opening a pool fills in.
#[derive(Clone, Copy, Debug)]
pub struct Initialize {
    /// Identity that will manage the pool.
    pub authority: Address,
    /// The pool record being opened.
    pub stake_pool: StakePool,
    /// Address-derivation bump of the pool account.
    pub pool_bump: u8,
    pub stake_mint: Address,
    pub reward_mint: Address,
    pub stake_vault: Address,
    pub reward_vault: Address,
}

/// Configuration of a new pool.
#[derive(Clone, Copy, Debug)]
pub struct InitializeParams {
    /// Reward units per second.
    pub reward_rate: u64,
    /// Shortest lock, in seconds.
    pub min_lock_duration: i64,
    /// Longest lock, in seconds.
    pub max_lock_duration: i64,
}

/// Why opening a pool with `params` is rejected, if it is.
pub open spec fn initialize_rejection(params: InitializeParams) -> Option<StakingError> {
    if params.min_lock_duration < 0 {
        Some(StakingError::DurationTooShort)
    } else if params.max_lock_duration < params.min_lock_duration {
        Some(StakingError::DurationTooLong)
    } else {
        None
    }
}

/// The pool opened at `now`: empty, unpaused, accumulator at zero.
pub open spec fn opened(c: Initialize, params: InitializeParams, now: int) -> StakePool {
    StakePool {
        authority: c.authority,
        stake_mint: c.stake_mint,
        reward_mint: c.reward_mint,
        stake_vault: c.stake_vault,
        reward_vault: c.reward_vault,
        total_staked: 0,
        total_weighted_stake: 0,
        reward_rate: params.reward_rate,
        accumulated_reward_per_share: 0,
        last_reward_time: now as i64,
        min_lock_duration: params.min_lock_duration,
        max_lock_duration: params.max_lock_duration,
        paused: false,
        bump: c.pool_bump,
        ..c.stake_pool
    }
}

/// Opens the pool at time `now` with the given configuration.
pub fn handler(ctx: &mut Initialize, params: InitializeParams, now: i64) -> (r: Result<(), StakingError>)
    ensures
        match initialize_rejection(params) {
            Some(e) => r == Err::<(), StakingError>(e) && *final(ctx) == *old(ctx),
            None => r is Ok && *final(ctx) == (Initialize {
                stake_pool: opened(*old(ctx), params, now as int),
                ..*old(ctx)
            }),
        },
        r is Ok ==> pool_wf(final(ctx).stake_pool),
{
    if params.min_lock_duration < 0 {
        return Err(StakingError::DurationTooShort);
    }
    if params.max_lock_duration < params.min_lock_duration {
        return Err(StakingError::DurationTooLong);
    }
    let pool = &mut ctx.stake_pool;
    pool.authority = ctx.authority;
    pool.stake_mint = ctx.stake_mint;
    pool.reward_mint = ctx.reward_mint;
    pool.stake_vault = ctx.stake_vault;
    pool.reward_vault = ctx.reward_vault;
    pool.total_staked = 0;
    pool.total_weighted_stake = 0;
    pool.reward_rate = params.reward_rate;
    pool.accumulated_reward_per_share = 0;
    pool.last_reward_time = now;
    pool.min_lock_duration = params.min_lock_duration;
    pool.max_lock_duration = params.max_lock_duration;
    pool.paused = false;
    pool.bump = ctx.pool_bump;
    Ok(())
}

} // verus!
