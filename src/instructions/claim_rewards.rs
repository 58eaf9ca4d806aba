use vstd::prelude::*;

use crate::calculate_tier;
use crate::constants::PRECISION;
use crate::errors::StakingError;
use crate::rewards::{
    accrued,
    advance_fits,
    advanced,
    calculate_pending_rewards,
    pending_of,
    update_rewards,
};
use crate::state::{
    Address,
    StakePool,
    StakingTier,
    TokenAccount,
    UserStake,
    pool_wf,
    tier_multiplier_bps,
    tier_of,
};

verus! {

/// The accounts a claim touches.
#[derive(Clone, Copy, Debug)]
pub struct ClaimRewards {
    /// The position's owner.
    pub user: Address,
    /// Key of the pool account.
    pub pool_key: Address,
    pub stake_pool: StakePool,
    pub user_stake: UserStake,
    /// Account the reward is paid to.
    pub user_reward_account: TokenAccount,
    /// The pool's reward vault; its balance caps the payout.
    pub reward_vault: TokenAccount,
}

/// Record of a completed claim.
#[derive(Clone, Copy, Debug)]
pub struct ClaimEvent {
    pub user: Address,
    pub stake_pool: Address,
    pub amount: u64,
    pub tier: StakingTier,
    pub tier_multiplier_applied: u64,
    pub total_claimed: u64,
    pub timestamp: i64,
}

/// Unclaimed reward of the position once the pool is advanced to `now`.
pub open spec fn claim_pending(c: ClaimRewards, now: int) -> int {
    pending_of(c.user_stake, advanced(c.stake_pool, now).accumulated_reward_per_share as int)
}

/// Pending reward with the tier's bonus applied.
pub open spec fn boosted_reward(c: ClaimRewards, now: int) -> int {
    claim_pending(c, now) * tier_multiplier_bps(tier_of(c.user_stake.staked_amount as int)) / 10000
}

/// What is paid: the boosted reward, capped by the vault's balance.
pub open spec fn payout(c: ClaimRewards, now: int) -> int {
    let b = boosted_reward(c, now);
    if b < c.reward_vault.amount {
        b
    } else {
        c.reward_vault.amount as int
    }
}

/// Why claiming at `now` is rejected, if it is.
pub open spec fn claim_rejection(c: ClaimRewards, now: int) -> Option<StakingError> {
    let pool = c.stake_pool;
    let u = c.user_stake;
    if u.owner@ != c.user@ {
        Some(StakingError::InvalidAuthority)
    } else if c.user_reward_account.mint@ != pool.reward_mint@ {
        Some(StakingError::InvalidMint)
    } else if c.user_reward_account.owner@ != c.user@ {
        Some(StakingError::InvalidAuthority)
    } else if c.reward_vault.key@ != pool.reward_vault@ {
        Some(StakingError::InvalidMint)
    } else if u.staked_amount == 0 {
        Some(StakingError::InsufficientStake)
    } else if !advance_fits(pool, now) {
        Some(StakingError::MathOverflow)
    } else if u.weighted_stake != 0 && u.weighted_stake * advanced(pool, now).accumulated_reward_per_share
        > u128::MAX {
        Some(StakingError::MathOverflow)
    } else if claim_pending(c, now) == 0 {
        Some(StakingError::NoPendingRewards)
    } else if boosted_reward(c, now) > u64::MAX {
        Some(StakingError::MathOverflow)
    } else if payout(c, now) == 0 {
        Some(StakingError::NoPendingRewards)
    } else if u.total_claimed + payout(c, now) > u64::MAX {
        Some(StakingError::MathOverflow)
    } else {
        None
    }
}

/// The accounts after a claim at `now`: the accumulator is advanced, the debt
/// is reset to the position's full accrual (so a shortfall under the vault
/// cap is forfeited), and the payout is added to what was claimed.
pub open spec fn claimed(c: ClaimRewards, now: int) -> ClaimRewards {
    let p = advanced(c.stake_pool, now);
    let u = c.user_stake;
    ClaimRewards {
        stake_pool: p,
        user_stake: UserStake {
            reward_debt: accrued(u.weighted_stake as int, p.accumulated_reward_per_share as int) as u128,
            total_claimed: (u.total_claimed + payout(c, now)) as u64,
            ..u
        },
        ..c
    }
}

/// Record of a claim at `now` from accounts `c`.
pub open spec fn claim_event(c: ClaimRewards, now: int) -> ClaimEvent {
    let t = tier_of(c.user_stake.staked_amount as int);
    ClaimEvent {
        user: c.user,
        stake_pool: c.pool_key,
        amount: payout(c, now) as u64,
        tier: t,
        tier_multiplier_applied: tier_multiplier_bps(t) as u64,
        total_claimed: (c.user_stake.total_claimed + payout(c, now)) as u64,
        timestamp: now as i64,
    }
}

/// Claims the position's pending reward at time `now`. On success the caller
/// transfers the event's amount from the reward vault to the user; on any
/// error nothing has changed. A boosted reward beyond `u64` is an overflow
/// error rather than a truncation.
pub fn handler(ctx: &mut ClaimRewards, now: i64) -> (r: Result<ClaimEvent, StakingError>)
    ensures
        match claim_rejection(*old(ctx), now as int) {
            Some(e) => r == Err::<ClaimEvent, StakingError>(e) && *final(ctx) == *old(ctx),
            None => r == Ok::<ClaimEvent, StakingError>(claim_event(*old(ctx), now as int))
                && *final(ctx) == claimed(*old(ctx), now as int),
        },
        pool_wf(old(ctx).stake_pool) ==> pool_wf(final(ctx).stake_pool),
        final(ctx).stake_pool.accumulated_reward_per_share
            >= old(ctx).stake_pool.accumulated_reward_per_share,
{
    if !ctx.user_stake.owner.same(&ctx.user) {
        return Err(StakingError::InvalidAuthority);
    }
    if !ctx.user_reward_account.mint.same(&ctx.stake_pool.reward_mint) {
        return Err(StakingError::InvalidMint);
    }
    if !ctx.user_reward_account.owner.same(&ctx.user) {
        return Err(StakingError::InvalidAuthority);
    }
    if !ctx.reward_vault.key.same(&ctx.stake_pool.reward_vault) {
        return Err(StakingError::InvalidMint);
    }
    if ctx.user_stake.staked_amount == 0 {
        return Err(StakingError::InsufficientStake);
    }
    let mut pool = ctx.stake_pool;
    update_rewards(&mut pool, now)?;
    proof {
        crate::rewards::lemma_advance_keeps_config(ctx.stake_pool, now as int);
    }
    let mut user = ctx.user_stake;
    let pending: u64 = calculate_pending_rewards(&user, pool.accumulated_reward_per_share)?;
    if pending == 0 {
        return Err(StakingError::NoPendingRewards);
    }
    let tier = calculate_tier(user.staked_amount);
    let tier_multiplier: u64 = tier.reward_multiplier_bps();
    assert((pending as int) * (tier_multiplier as int) <= u64::MAX as int * 15000) by (nonlinear_arith)
        requires
            tier_multiplier <= 15000,
    ;
    let wide: u128 = (pending as u128) * (tier_multiplier as u128) / 10000;
    if wide > u64::MAX as u128 {
        return Err(StakingError::MathOverflow);
    }
    let reward_amount: u64 = wide as u64;
    let vault_balance: u64 = ctx.reward_vault.amount;
    let actual: u64 = if reward_amount < vault_balance {
        reward_amount
    } else {
        vault_balance
    };
    if actual == 0 {
        return Err(StakingError::NoPendingRewards);
    }
    user.total_claimed = match user.total_claimed.checked_add(actual) {
        Some(v) => v,
        None => return Err(StakingError::MathOverflow),
    };
    user.reward_debt = (user.weighted_stake as u128) * pool.accumulated_reward_per_share / PRECISION;
    ctx.stake_pool = pool;
    ctx.user_stake = user;
    Ok(
        ClaimEvent {
            user: ctx.user,
            stake_pool: ctx.pool_key,
            amount: actual,
            tier,
            tier_multiplier_applied: tier_multiplier,
            total_claimed: user.total_claimed,
            timestamp: now,
        },
    )
}

} // verus!
