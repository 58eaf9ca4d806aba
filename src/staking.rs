use vstd::prelude::*;

use crate::errors::StakingError;
use crate::instructions::claim_rewards::{ClaimEvent, ClaimRewards, claim_event, claim_rejection, claimed};
use crate::instructions::initialize::{Initialize, InitializeParams, initialize_rejection, opened};
use crate::instructions::stake::{Stake, StakeEvent, stake_event, stake_rejection, staked};
use crate::instructions::unstake::{Unstake, UnstakeEvent, unstake_event, unstake_rejection, unstaked};
use crate::instructions;
use crate::state::pool_wf;

verus! {

/// Opens a pool at time `now` with reward rate and lock range from `params`.
pub fn initialize(ctx: &mut Initialize, params: InitializeParams, now: i64) -> (r: Result<(), StakingError>)
    ensures
        match initialize_rejection(params) {
            Some(e) => r == Err::<(), StakingError>(e) && *final(ctx) == *old(ctx),
            None => r is Ok && *final(ctx) == (Initialize {
                stake_pool: opened(*old(ctx), params, now as int),
                ..*old(ctx)
            }),
        },
        r is Ok ==> pool_wf(final(ctx).stake_pool),
{
    instructions::initialize::handler(ctx, params, now)
}

/// Stakes `amount` for `lock_duration` seconds at time `now`.
pub fn stake(ctx: &mut Stake, amount: u64, lock_duration: i64, now: i64) -> (r: Result<
    StakeEvent,
    StakingError,
>)
    requires
        pool_wf(old(ctx).stake_pool),
    ensures
        match stake_rejection(*old(ctx), amount as int, lock_duration as int, now as int) {
            Some(e) => r == Err::<StakeEvent, StakingError>(e) && *final(ctx) == *old(ctx),
            None => r == Ok::<StakeEvent, StakingError>(
                stake_event(*old(ctx), amount as int, lock_duration as int, now as int),
            ) && *final(ctx) == staked(*old(ctx), amount as int, lock_duration as int, now as int),
        },
        pool_wf(final(ctx).stake_pool),
        final(ctx).stake_pool.accumulated_reward_per_share
            >= old(ctx).stake_pool.accumulated_reward_per_share,
{
    instructions::stake::handler(ctx, amount, lock_duration, now)
}

/// Unstakes `amount` at time `now`, once the lock has ended.
pub fn unstake(ctx: &mut Unstake, amount: u64, now: i64) -> (r: Result<UnstakeEvent, StakingError>)
    ensures
        match unstake_rejection(*old(ctx), amount as int, now as int) {
            Some(e) => r == Err::<UnstakeEvent, StakingError>(e) && *final(ctx) == *old(ctx),
            None => r == Ok::<UnstakeEvent, StakingError>(
                unstake_event(*old(ctx), amount as int, now as int),
            ) && *final(ctx) == unstaked(*old(ctx), amount as int, now as int),
        },
        pool_wf(old(ctx).stake_pool) ==> pool_wf(final(ctx).stake_pool),
        final(ctx).stake_pool.accumulated_reward_per_share
            >= old(ctx).stake_pool.accumulated_reward_per_share,
{
    instructions::unstake::handler(ctx, amount, now)
}

/// Claims the position's pending reward at time `now`.
pub fn claim_rewards(ctx: &mut ClaimRewards, now: i64) -> (r: Result<ClaimEvent, StakingError>)
    ensures
        match claim_rejection(*old(ctx), now as int) {
            Some(e) => r == Err::<ClaimEvent, StakingError>(e) && *final(ctx) == *old(ctx),
            None => r == Ok::<ClaimEvent, StakingError>(claim_event(*old(ctx), now as int))
                && *final(ctx) == claimed(*old(ctx), now as int),
        },
        pool_wf(old(ctx).stake_pool) ==> pool_wf(final(ctx).stake_pool),
        final(ctx).stake_pool.accumulated_reward_per_share
            >= old(ctx).stake_pool.accumulated_reward_per_share,
{
    instructions::claim_rewards::handler(ctx, now)
}

} // verus!
