use vstd::prelude::*;

use crate::constants::PRECISION;
use crate::errors::StakingError;
use crate::instructions::claim_rewards::{ClaimRewards, boosted_reward, claim_event, claim_rejection, claimed};
use crate::instructions::stake::{Stake, stake_rejection, staked};
use crate::instructions::unstake::{Unstake, lemma_part_of, unstake_rejection, unstaked};
use crate::rewards::{advance_fits, advanced, lemma_advance_keeps_config};
use crate::state::{StakePool, UserStake};

verus! {

/// Sum of the raw staked amounts of `s`.
pub open spec fn sum_staked(s: Seq<UserStake>) -> int
    decreases s.len(),
{
    if s.len() == 0 {
        0
    } else {
        sum_staked(s.drop_last()) + s.last().staked_amount
    }
}

/// Sum of the weighted stakes of `s`.
pub open spec fn sum_weighted(s: Seq<UserStake>) -> int
    decreases s.len(),
{
    if s.len() == 0 {
        0
    } else {
        sum_weighted(s.drop_last()) + s.last().weighted_stake
    }
}

/// The pool's totals are the sums over all its positions.
pub open spec fn totals_match(p: StakePool, positions: Seq<UserStake>) -> bool {
    p.total_staked == sum_staked(positions) && p.total_weighted_stake == sum_weighted(positions)
}

proof fn lemma_sums_update(s: Seq<UserStake>, i: int, x: UserStake)
    requires
        0 <= i < s.len(),
    ensures
        sum_staked(s.update(i, x)) == sum_staked(s) - s[i].staked_amount + x.staked_amount,
        sum_weighted(s.update(i, x)) == sum_weighted(s) - s[i].weighted_stake + x.weighted_stake,
    decreases s.len(),
{
    let t = s.update(i, x);
    if i == s.len() - 1 {
        assert(t.drop_last() =~= s.drop_last());
    } else {
        lemma_sums_update(s.drop_last(), i, x);
        assert(t.drop_last() =~= s.drop_last().update(i, x));
    }
}

/// A successful stake keeps the pool's totals equal to the sums over its
/// positions: the pool and the staker's position grow by the same amounts.
pub proof fn stake_keeps_totals(
    c: Stake,
    positions: Seq<UserStake>,
    i: int,
    amount: int,
    dur: int,
    now: int,
)
    requires
        0 <= i < positions.len(),
        positions[i] == c.user_stake,
        totals_match(c.stake_pool, positions),
        0 <= amount <= u64::MAX,
        stake_rejection(c, amount, dur, now) is None,
    ensures
        totals_match(
            staked(c, amount, dur, now).stake_pool,
            positions.update(i, staked(c, amount, dur, now).user_stake),
        ),
{
    lemma_advance_keeps_config(c.stake_pool, now);
    lemma_sums_update(positions, i, staked(c, amount, dur, now).user_stake);
}

/// A successful unstake keeps the pool's totals equal to the sums over its
/// positions: the pool and the position shrink by the same amounts.
pub proof fn unstake_keeps_totals(c: Unstake, positions: Seq<UserStake>, i: int, amount: int, now: int)
    requires
        0 <= i < positions.len(),
        positions[i] == c.user_stake,
        totals_match(c.stake_pool, positions),
        0 <= amount <= u64::MAX,
        unstake_rejection(c, amount, now) is None,
    ensures
        totals_match(
            unstaked(c, amount, now).stake_pool,
            positions.update(i, unstaked(c, amount, now).user_stake),
        ),
{
    lemma_advance_keeps_config(c.stake_pool, now);
    lemma_part_of(amount, c.user_stake.weighted_stake as int, c.user_stake.staked_amount as int);
    lemma_sums_update(positions, i, unstaked(c, amount, now).user_stake);
}

/// Advancing the accumulator never lowers it, whatever the time.
pub proof fn accumulator_never_decreases(p: StakePool, now: int)
    requires
        advance_fits(p, now),
    ensures
        advanced(p, now).accumulated_reward_per_share >= p.accumulated_reward_per_share,
{
    lemma_advance_keeps_config(p, now);
}

/// Staking an amount and unstaking the same amount once the lock has ended
/// gives back the position's and the pool's raw stake exactly; for a position
/// that held nothing before, its weighted stake and the pool's weighted total
/// come back exactly too.
pub proof fn stake_then_unstake_restores(
    c: Stake,
    amount: int,
    dur: int,
    now: int,
    c2: Unstake,
    later: int,
)
    requires
        0 <= amount <= u64::MAX,
        stake_rejection(c, amount, dur, now) is None,
        c2.stake_pool == staked(c, amount, dur, now).stake_pool,
        c2.user_stake == staked(c, amount, dur, now).user_stake,
        unstake_rejection(c2, amount, later) is None,
    ensures
        unstaked(c2, amount, later).user_stake.staked_amount == c.user_stake.staked_amount,
        unstaked(c2, amount, later).stake_pool.total_staked == c.stake_pool.total_staked,
        c.user_stake.staked_amount == 0 && c.user_stake.weighted_stake == 0 ==> unstaked(
            c2,
            amount,
            later,
        ).user_stake.weighted_stake == 0 && unstaked(c2, amount, later).stake_pool.total_weighted_stake
            == c.stake_pool.total_weighted_stake,
{
    lemma_advance_keeps_config(c.stake_pool, now);
    lemma_advance_keeps_config(c2.stake_pool, later);
    let u = c2.user_stake;
    if c.user_stake.staked_amount == 0 && c.user_stake.weighted_stake == 0 {
        vstd::arithmetic::div_mod::lemma_div_multiples_vanish(u.weighted_stake as int, amount);
    }
}

/// Right after a successful claim, a second claim at the same time finds
/// nothing to pay.
pub proof fn second_claim_finds_nothing(c: ClaimRewards, now: int)
    requires
        i64::MIN <= now <= i64::MAX,
        claim_rejection(c, now) is None,
    ensures
        claim_rejection(claimed(c, now), now) == Some(StakingError::NoPendingRewards),
{
    let p = advanced(c.stake_pool, now);
    let c1 = claimed(c, now);
    assert(advance_fits(p, now));
    assert(advanced(p, now) == p);
    let prod = c.user_stake.weighted_stake * p.accumulated_reward_per_share;
    assert(prod / (PRECISION as int) <= prod);
    assert(c1.user_stake.weighted_stake == c.user_stake.weighted_stake);
}

/// An unstake whose other checks pass fails with `StillLocked` exactly when it
/// comes before the lock's end; at or after the end it succeeds, given that the
/// pool's totals cover the position and the arithmetic fits.
pub proof fn unstake_lock_boundary(c: Unstake, amount: int, now: int)
    requires
        c.user_stake.owner@ == c.user@,
        c.user_token_account.mint@ == c.stake_pool.stake_mint@,
        c.user_token_account.owner@ == c.user@,
        c.stake_vault.key@ == c.stake_pool.stake_vault@,
        0 < amount <= c.user_stake.staked_amount,
    ensures
        now < c.user_stake.lock_end_time ==> unstake_rejection(c, amount, now) == Some(
            StakingError::StillLocked,
        ),
        now >= c.user_stake.lock_end_time ==> unstake_rejection(c, amount, now) != Some(
            StakingError::StillLocked,
        ),
        now >= c.user_stake.lock_end_time && advance_fits(c.stake_pool, now) && amount
            * c.user_stake.reward_debt <= u128::MAX && c.stake_pool.total_staked
            >= c.user_stake.staked_amount && c.stake_pool.total_weighted_stake
            >= c.user_stake.weighted_stake ==> unstake_rejection(c, amount, now) is None,
{
    if advance_fits(c.stake_pool, now) {
        lemma_advance_keeps_config(c.stake_pool, now);
    }
    lemma_part_of(amount, c.user_stake.weighted_stake as int, c.user_stake.staked_amount as int);
}

/// The start time of a position is set by its first stake only: a stake into a
/// position that is not new, even one emptied by unstaking, keeps the start
/// time and never moves the lock's end earlier.
pub proof fn stake_start_time_set_once(c: Stake, amount: int, dur: int, now: int)
    requires
        !c.user_stake_is_new,
        stake_rejection(c, amount, dur, now) is None,
    ensures
        staked(c, amount, dur, now).user_stake.stake_start_time == c.user_stake.stake_start_time,
        staked(c, amount, dur, now).user_stake.owner == c.user_stake.owner,
        staked(c, amount, dur, now).user_stake.lock_end_time >= c.user_stake.lock_end_time,
        !staked(c, amount, dur, now).user_stake_is_new,
{
}

/// A successful claim pays the tier-boosted pending reward, capped by the
/// vault's balance, and adds exactly that to what the position has claimed.
pub proof fn claim_pays_capped_boost(c: ClaimRewards, now: int)
    requires
        claim_rejection(c, now) is None,
    ensures
        claim_event(c, now).amount as int == if boosted_reward(c, now) < c.reward_vault.amount {
            boosted_reward(c, now)
        } else {
            c.reward_vault.amount as int
        },
        claim_event(c, now).amount > 0,
        claimed(c, now).user_stake.total_claimed == c.user_stake.total_claimed + claim_event(
            c,
            now,
        ).amount,
{
}

} // verus!
