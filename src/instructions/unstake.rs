use vstd::prelude::*;

use crate::calculate_tier;
use crate::errors::StakingError;
use crate::rewards::{advance_fits, advanced, update_rewards};
use crate::state::{Address, StakePool, StakingTier, TokenAccount, UserStake, pool_wf, tier_of};

verus! {

/// The accounts an unstake touches.
#[derive(Clone, Copy, Debug)]
pub struct Unstake {
    /// The position's owner.
    pub user: Address,
    /// Key of the pool account.
    pub pool_key: Address,
    pub stake_pool: StakePool,
    pub user_stake: UserStake,
    /// Account the stake is returned to.
    pub user_token_account: TokenAccount,
    /// The pool's stake vault.
    pub stake_vault: TokenAccount,
}

/// Record of a completed unstake.
#[derive(Clone, Copy, Debug)]
pub struct UnstakeEvent {
    pub user: Address,
    pub stake_pool: Address,
    pub amount: u64,
    pub weighted_amount_removed: u64,
    pub remaining_stake: u64,
    pub new_tier: StakingTier,
    pub timestamp: i64,
}

/// Weighted stake removed when `amount` of the position `u` is unstaked: the
/// same fraction of its weighted stake, rounded down.
pub open spec fn weighted_to_remove(u: UserStake, amount: int) -> int {
    amount * u.weighted_stake / (u.staked_amount as int)
}

/// Reward debt removed when `amount` of the position `u` is unstaked.
pub open spec fn debt_to_remove(u: UserStake, amount: int) -> int {
    amount * u.reward_debt / (u.staked_amount as int)
}

/// Why unstaking `amount` at `now` is rejected, if it is.
pub open spec fn unstake_rejection(c: Unstake, amount: int, now: int) -> Option<StakingError> {
    let pool = c.stake_pool;
    let u = c.user_stake;
    if u.owner@ != c.user@ {
        Some(StakingError::InvalidAuthority)
    } else if c.user_token_account.mint@ != pool.stake_mint@ {
        Some(StakingError::InvalidMint)
    } else if c.user_token_account.owner@ != c.user@ {
        Some(StakingError::InvalidAuthority)
    } else if c.stake_vault.key@ != pool.stake_vault@ {
        Some(StakingError::InvalidMint)
    } else if amount == 0 {
        Some(StakingError::InvalidAmount)
    } else if u.staked_amount < amount {
        Some(StakingError::InsufficientStake)
    } else if now < u.lock_end_time {
        Some(StakingError::StillLocked)
    } else if !advance_fits(pool, now) {
        Some(StakingError::MathOverflow)
    } else {
        let p = advanced(pool, now);
        if amount * u.reward_debt > u128::MAX || p.total_staked < amount || p.total_weighted_stake
            < weighted_to_remove(u, amount) {
            Some(StakingError::MathOverflow)
        } else {
            None
        }
    }
}

/// The accounts after unstaking `amount` at `now`: the accumulator is
/// advanced, and the position and the pool totals shrink in proportion.
pub open spec fn unstaked(c: Unstake, amount: int, now: int) -> Unstake {
    let p = advanced(c.stake_pool, now);
    let u = c.user_stake;
    let w = weighted_to_remove(u, amount);
    Unstake {
        stake_pool: StakePool {
            total_staked: (p.total_staked - amount) as u64,
            total_weighted_stake: (p.total_weighted_stake - w) as u64,
            ..p
        },
        user_stake: UserStake {
            staked_amount: (u.staked_amount - amount) as u64,
            weighted_stake: (u.weighted_stake - w) as u64,
            reward_debt: (u.reward_debt - debt_to_remove(u, amount)) as u128,
            ..u
        },
        ..c
    }
}

/// Record of unstaking `amount` at `now` from accounts `c`.
pub open spec fn unstake_event(c: Unstake, amount: int, now: int) -> UnstakeEvent {
    let left = c.user_stake.staked_amount - amount;
    UnstakeEvent {
        user: c.user,
        stake_pool: c.pool_key,
        amount: amount as u64,
        weighted_amount_removed: weighted_to_remove(c.user_stake, amount) as u64,
        remaining_stake: left as u64,
        new_tier: tier_of(left),
        timestamp: now as i64,
    }
}

/// `a / s` of a non-negative `x`, rounded down, lies in `[0, x]` when `0 < a <= s`.
pub proof fn lemma_part_of(a: int, x: int, s: int)
    requires
        0 < a <= s,
        0 <= x,
    ensures
        0 <= a * x / s <= x,
{
    assert(a * x <= s * x) by (nonlinear_arith)
        requires
            a <= s,
            0 <= x,
    ;
    assert(0 <= a * x) by (nonlinear_arith)
        requires
            0 < a,
            0 <= x,
    ;
    vstd::arithmetic::div_mod::lemma_div_is_ordered(a * x, s * x, s);
    vstd::arithmetic::div_mod::lemma_div_multiples_vanish(x, s);
    vstd::arithmetic::div_mod::lemma_div_pos_is_pos(a * x, s);
}

/// Unstakes `amount` at time `now`. On success the caller transfers `amount`
/// from the stake vault back to the user; on any error nothing has changed.
pub fn handler(ctx: &mut Unstake, amount: u64, now: i64) -> (r: Result<UnstakeEvent, StakingError>)
    ensures
        match unstake_rejection(*old(ctx), amount as int, now as int) {
            Some(e) => r == Err::<UnstakeEvent, StakingError>(e) && *final(ctx) == *old(ctx),
            None => r == Ok::<UnstakeEvent, StakingError>(
                unstake_event(*old(ctx), amount as int, now as int),
            ) && *final(ctx) == unstaked(*old(ctx), amount as int, now as int),
        },
        pool_wf(old(ctx).stake_pool) ==> pool_wf(final(ctx).stake_pool),
        final(ctx).stake_pool.accumulated_reward_per_share
            >= old(ctx).stake_pool.accumulated_reward_per_share,
{
    if !ctx.user_stake.owner.same(&ctx.user) {
        return Err(StakingError::InvalidAuthority);
    }
    if !ctx.user_token_account.mint.same(&ctx.stake_pool.stake_mint) {
        return Err(StakingError::InvalidMint);
    }
    if !ctx.user_token_account.owner.same(&ctx.user) {
        return Err(StakingError::InvalidAuthority);
    }
    if !ctx.stake_vault.key.same(&ctx.stake_pool.stake_vault) {
        return Err(StakingError::InvalidMint);
    }
    if amount == 0 {
        return Err(StakingError::InvalidAmount);
    }
    if ctx.user_stake.staked_amount < amount {
        return Err(StakingError::InsufficientStake);
    }
    if now < ctx.user_stake.lock_end_time {
        return Err(StakingError::StillLocked);
    }
    let mut pool = ctx.stake_pool;
    update_rewards(&mut pool, now)?;
    proof {
        crate::rewards::lemma_advance_keeps_config(ctx.stake_pool, now as int);
    }
    let mut user = ctx.user_stake;
    let staked: u128 = user.staked_amount as u128;
    proof {
        lemma_part_of(amount as int, user.weighted_stake as int, staked as int);
    }
    assert((amount as int) * (user.weighted_stake as int) <= u128::MAX) by (nonlinear_arith)
        requires
            amount <= u64::MAX,
            user.weighted_stake <= u64::MAX,
    ;
    let weighted_removed: u64 = ((amount as u128) * (user.weighted_stake as u128) / staked) as u64;
    let debt_product: u128 = match (amount as u128).checked_mul(user.reward_debt) {
        Some(v) => v,
        None => return Err(StakingError::MathOverflow),
    };
    proof {
        lemma_part_of(amount as int, user.reward_debt as int, staked as int);
    }
    let debt_removed: u128 = debt_product / staked;
    user.staked_amount = user.staked_amount - amount;
    user.weighted_stake = user.weighted_stake - weighted_removed;
    user.reward_debt = user.reward_debt - debt_removed;
    pool.total_staked = match pool.total_staked.checked_sub(amount) {
        Some(v) => v,
        None => return Err(StakingError::MathOverflow),
    };
    pool.total_weighted_stake = match pool.total_weighted_stake.checked_sub(weighted_removed) {
        Some(v) => v,
        None => return Err(StakingError::MathOverflow),
    };
    ctx.stake_pool = pool;
    ctx.user_stake = user;
    let new_tier = calculate_tier(user.staked_amount);
    Ok(
        UnstakeEvent {
            user: ctx.user,
            stake_pool: ctx.pool_key,
            amount,
            weighted_amount_removed: weighted_removed,
            remaining_stake: user.staked_amount,
            new_tier,
            timestamp: now,
        },
    )
}

} // verus!
