use staking::errors::StakingError;
use staking::instructions::claim_rewards::ClaimRewards;
use staking::instructions::initialize::{Initialize, InitializeParams};
use staking::instructions::stake::Stake;
use staking::instructions::unstake::Unstake;
use staking::state::{Address, StakePool, StakingTier, TokenAccount, UserStake};
use staking::staking::{claim_rewards, initialize, stake, unstake};
use staking::{calculate_pending_rewards, update_rewards};

const MIN: i64 = 604_800;
const MAX: i64 = 31_536_000;
const T0: i64 = 1_700_000_000;

fn addr(n: u8) -> Address {
    Address::new([n; 32])
}

fn empty_pool() -> StakePool {
    StakePool {
        authority: addr(0),
        stake_mint: addr(0),
        reward_mint: addr(0),
        stake_vault: addr(0),
        reward_vault: addr(0),
        total_staked: 0,
        total_weighted_stake: 0,
        reward_rate: 0,
        accumulated_reward_per_share: 0,
        last_reward_time: 0,
        min_lock_duration: 0,
        max_lock_duration: 0,
        paused: false,
        bump: 0,
        reserved: [0; 64],
    }
}

fn empty_position() -> UserStake {
    UserStake {
        owner: addr(0),
        stake_pool: addr(0),
        staked_amount: 0,
        weighted_stake: 0,
        lock_end_time: 0,
        lock_duration: 0,
        reward_debt: 0,
        total_claimed: 0,
        stake_start_time: 0,
        bump: 0,
        reserved: [0; 32],
    }
}

fn account(key: u8, mint: u8, owner: u8, amount: u64) -> TokenAccount {
    TokenAccount { key: addr(key), mint: addr(mint), owner: addr(owner), amount }
}

// authority 1, stake mint 2, reward mint 3, stake vault 4, reward vault 5, pool 6
fn open_pool(rate: u64, min: i64, max: i64) -> StakePool {
    let mut ctx = Initialize {
        authority: addr(1),
        stake_pool: empty_pool(),
        pool_bump: 254,
        stake_mint: addr(2),
        reward_mint: addr(3),
        stake_vault: addr(4),
        reward_vault: addr(5),
    };
    initialize(&mut ctx, InitializeParams { reward_rate: rate, min_lock_duration: min, max_lock_duration: max }, T0)
        .unwrap();
    ctx.stake_pool
}

fn stake_ctx(pool: StakePool, user: u8, position: UserStake) -> Stake {
    Stake {
        user: addr(user),
        pool_key: addr(6),
        stake_pool: pool,
        user_stake: position,
        user_stake_is_new: position.owner == addr(0),
        user_stake_bump: 200,
        user_token_account: account(10 + user, 2, user, u64::MAX),
        stake_vault: account(4, 2, 6, 0),
    }
}

fn unstake_ctx(pool: StakePool, user: u8, position: UserStake) -> Unstake {
    Unstake {
        user: addr(user),
        pool_key: addr(6),
        stake_pool: pool,
        user_stake: position,
        user_token_account: account(10 + user, 2, user, 0),
        stake_vault: account(4, 2, 6, u64::MAX),
    }
}

fn claim_ctx(pool: StakePool, user: u8, position: UserStake, vault: u64) -> ClaimRewards {
    ClaimRewards {
        user: addr(user),
        pool_key: addr(6),
        stake_pool: pool,
        user_stake: position,
        user_reward_account: account(20 + user, 3, user, 0),
        reward_vault: account(5, 3, 6, vault),
    }
}

#[test]
fn initialize_opens_an_empty_pool() {
    let pool = open_pool(100, MIN, MAX);
    assert_eq!(pool.authority, addr(1));
    assert_eq!(pool.stake_mint, addr(2));
    assert_eq!(pool.reward_vault, addr(5));
    assert_eq!(pool.total_staked, 0);
    assert_eq!(pool.total_weighted_stake, 0);
    assert_eq!(pool.reward_rate, 100);
    assert_eq!(pool.accumulated_reward_per_share, 0);
    assert_eq!(pool.last_reward_time, T0);
    assert_eq!(pool.min_lock_duration, MIN);
    assert_eq!(pool.max_lock_duration, MAX);
    assert!(!pool.paused);
    assert_eq!(pool.bump, 254);
}

#[test]
fn initialize_rejects_bad_ranges() {
    let mut ctx = Initialize {
        authority: addr(1),
        stake_pool: empty_pool(),
        pool_bump: 1,
        stake_mint: addr(2),
        reward_mint: addr(3),
        stake_vault: addr(4),
        reward_vault: addr(5),
    };
    let p = InitializeParams { reward_rate: 1, min_lock_duration: -1, max_lock_duration: 10 };
    assert_eq!(initialize(&mut ctx, p, T0), Err(StakingError::DurationTooShort));
    let p = InitializeParams { reward_rate: 1, min_lock_duration: 10, max_lock_duration: 9 };
    assert_eq!(initialize(&mut ctx, p, T0), Err(StakingError::DurationTooLong));
    assert_eq!(ctx.stake_pool.authority, addr(0));
}

#[test]
fn scenario_stake_accrue_and_claim_with_tier_bonus() {
    let pool = open_pool(100, MIN, MAX);
    let mut s = stake_ctx(pool, 7, empty_position());
    let ev = stake(&mut s, 1_000_000_000_000, MAX, T0).unwrap();
    assert_eq!(ev.weighted_amount, 2_000_000_000_000);
    assert_eq!(ev.new_tier, StakingTier::Holder);
    assert_eq!(ev.lock_end_time, T0 + MAX);
    assert_eq!(s.user_stake.weighted_stake, 2 * s.user_stake.staked_amount);
    assert_eq!(s.user_stake.owner, addr(7));
    assert_eq!(s.user_stake.stake_start_time, T0);

    // 1000 seconds later the accumulator grows by 1000 * 100 * 10^12 / weighted stake
    let mut p = s.stake_pool;
    update_rewards(&mut p, T0 + 1000).unwrap();
    assert_eq!(p.accumulated_reward_per_share, 1000 * 100 * 1_000_000_000_000 / 2_000_000_000_000);
    assert_eq!(p.accumulated_reward_per_share, 50_000);
    assert_eq!(calculate_pending_rewards(&s.user_stake, p.accumulated_reward_per_share), Ok(100_000));

    // the Holder tier adds 10% on top of the base pending amount
    let mut c = claim_ctx(s.stake_pool, 7, s.user_stake, 1_000_000);
    let ev = claim_rewards(&mut c, T0 + 1000).unwrap();
    assert_eq!(ev.amount, 110_000);
    assert_eq!(ev.tier, StakingTier::Holder);
    assert_eq!(ev.tier_multiplier_applied, 11000);
    assert_eq!(c.user_stake.total_claimed, 110_000);
    assert_eq!(c.user_stake.reward_debt, 100_000);

    // a vault that holds less caps the payout, and the shortfall is forfeited
    let mut c = claim_ctx(s.stake_pool, 7, s.user_stake, 50_000);
    let ev = claim_rewards(&mut c, T0 + 1000).unwrap();
    assert_eq!(ev.amount, 50_000);
    assert_eq!(c.user_stake.reward_debt, 100_000);
    assert_eq!(claim_rewards(&mut c, T0 + 1000).unwrap_err(), StakingError::NoPendingRewards);
}

#[test]
fn second_claim_without_elapsed_time_has_nothing() {
    let pool = open_pool(100, MIN, MAX);
    let mut s = stake_ctx(pool, 7, empty_position());
    stake(&mut s, 5_000, MIN, T0).unwrap();
    let mut c = claim_ctx(s.stake_pool, 7, s.user_stake, u64::MAX);
    let first = claim_rewards(&mut c, T0 + 10).unwrap();
    assert_eq!(first.amount, 1000);
    let before = c;
    assert_eq!(claim_rewards(&mut c, T0 + 10).unwrap_err(), StakingError::NoPendingRewards);
    assert_eq!(c.user_stake.reward_debt, before.user_stake.reward_debt);
    assert_eq!(c.user_stake.total_claimed, 1000);
}

#[test]
fn unstake_one_second_before_lock_end_is_refused() {
    let pool = open_pool(100, MIN, MAX);
    let mut s = stake_ctx(pool, 7, empty_position());
    stake(&mut s, 5_000, MIN, T0).unwrap();
    let end = s.user_stake.lock_end_time;
    assert_eq!(end, T0 + MIN);
    let mut u = unstake_ctx(s.stake_pool, 7, s.user_stake);
    assert_eq!(unstake(&mut u, 5_000, end - 1).unwrap_err(), StakingError::StillLocked);
    assert_eq!(u.user_stake.staked_amount, 5_000);
    let ev = unstake(&mut u, 5_000, end).unwrap();
    assert_eq!(ev.remaining_stake, 0);
    assert_eq!(ev.new_tier, StakingTier::NoTier);
}

#[test]
fn stake_then_unstake_round_trip() {
    let pool = open_pool(7, MIN, MAX);
    let mut s = stake_ctx(pool, 7, empty_position());
    stake(&mut s, 123_456_789, (MIN + MAX) / 3, T0).unwrap();
    let end = s.user_stake.lock_end_time;
    let mut u = unstake_ctx(s.stake_pool, 7, s.user_stake);
    let ev = unstake(&mut u, 123_456_789, end + 5).unwrap();
    assert_eq!(ev.weighted_amount_removed, s.user_stake.weighted_stake);
    assert_eq!(u.user_stake.staked_amount, 0);
    assert_eq!(u.user_stake.weighted_stake, 0);
    assert_eq!(u.stake_pool.total_staked, 0);
    assert_eq!(u.stake_pool.total_weighted_stake, 0);
}

#[test]
fn totals_follow_a_sequence_of_operations() {
    let pool = open_pool(1_000, MIN, MAX);
    let mut a = stake_ctx(pool, 7, empty_position());
    stake(&mut a, 3_000, MIN, T0).unwrap();
    let mut b = stake_ctx(a.stake_pool, 8, empty_position());
    stake(&mut b, 7_001, MAX, T0 + 50).unwrap();
    let mut a2 = stake_ctx(b.stake_pool, 7, a.user_stake);
    stake(&mut a2, 999, (MIN + MAX) / 2, T0 + 100).unwrap();
    let a_pos = a2.user_stake;
    let b_pos = b.user_stake;
    let p = a2.stake_pool;
    assert_eq!(p.total_staked, a_pos.staked_amount + b_pos.staked_amount);
    assert_eq!(p.total_weighted_stake, a_pos.weighted_stake + b_pos.weighted_stake);

    let mut u = unstake_ctx(p, 8, b_pos);
    unstake(&mut u, 2_500, b_pos.lock_end_time).unwrap();
    let p = u.stake_pool;
    let b_pos = u.user_stake;
    assert_eq!(p.total_staked, a_pos.staked_amount + b_pos.staked_amount);
    assert_eq!(p.total_weighted_stake, a_pos.weighted_stake + b_pos.weighted_stake);
    assert_eq!(b_pos.staked_amount, 4_501);
}

#[test]
fn later_stake_only_extends_the_lock() {
    let pool = open_pool(1, MIN, MAX);
    let mut s = stake_ctx(pool, 7, empty_position());
    stake(&mut s, 10, MAX, T0).unwrap();
    let mut s2 = stake_ctx(s.stake_pool, 7, s.user_stake);
    stake(&mut s2, 10, MIN, T0 + 100).unwrap();
    assert_eq!(s2.user_stake.lock_end_time, T0 + MAX);
    assert_eq!(s2.user_stake.lock_duration, MAX);
    assert_eq!(s2.user_stake.stake_start_time, T0);
    let mut s3 = stake_ctx(s2.stake_pool, 7, s2.user_stake);
    stake(&mut s3, 10, MAX, T0 + 200).unwrap();
    assert_eq!(s3.user_stake.lock_end_time, T0 + 200 + MAX);
}

#[test]
fn accumulator_is_monotonic_and_skips_empty_intervals() {
    let mut p = open_pool(10, MIN, MAX);
    update_rewards(&mut p, T0 + 500).unwrap();
    assert_eq!(p.accumulated_reward_per_share, 0);
    assert_eq!(p.last_reward_time, T0 + 500);
    p.total_weighted_stake = 1_000_000;
    update_rewards(&mut p, T0 + 600).unwrap();
    assert_eq!(p.accumulated_reward_per_share, 100 * 10 * 1_000_000);
    update_rewards(&mut p, T0 + 550).unwrap();
    assert_eq!(p.accumulated_reward_per_share, 1_000_000_000);
    assert_eq!(p.last_reward_time, T0 + 600);
}

#[test]
fn accumulator_overflow_is_an_error() {
    let mut p = open_pool(u64::MAX, MIN, MAX);
    p.total_weighted_stake = 1;
    p.last_reward_time = 0;
    let before = p.accumulated_reward_per_share;
    assert_eq!(update_rewards(&mut p, i64::MAX), Err(StakingError::MathOverflow));
    assert_eq!(p.accumulated_reward_per_share, before);
    assert_eq!(p.last_reward_time, 0);
}

#[test]
fn pending_rewards_floor_and_saturate() {
    let mut pos = empty_position();
    assert_eq!(calculate_pending_rewards(&pos, 1_000_000), Ok(0));
    pos.weighted_stake = 10;
    pos.reward_debt = 50;
    assert_eq!(calculate_pending_rewards(&pos, 2_000_000_000_000), Ok(0));
    pos.reward_debt = 5;
    assert_eq!(calculate_pending_rewards(&pos, 2_000_000_000_000), Ok(15));
    pos.weighted_stake = u64::MAX;
    pos.reward_debt = 0;
    assert_eq!(calculate_pending_rewards(&pos, 2_000_000_000_000), Ok(u64::MAX));
    assert_eq!(calculate_pending_rewards(&pos, u128::MAX), Err(StakingError::MathOverflow));
}

#[test]
fn stake_errors() {
    let pool = open_pool(1, MIN, MAX);
    let mut s = stake_ctx(pool, 7, empty_position());
    assert_eq!(stake(&mut s, 0, MIN, T0).unwrap_err(), StakingError::InvalidAmount);
    assert_eq!(stake(&mut s, 1, MIN - 1, T0).unwrap_err(), StakingError::DurationTooShort);
    assert_eq!(stake(&mut s, 1, MAX + 1, T0).unwrap_err(), StakingError::DurationTooLong);
    let mut bad = s;
    bad.user_token_account.mint = addr(3);
    assert_eq!(stake(&mut bad, 1, MIN, T0).unwrap_err(), StakingError::InvalidMint);
    let mut bad = s;
    bad.user_token_account.owner = addr(9);
    assert_eq!(stake(&mut bad, 1, MIN, T0).unwrap_err(), StakingError::InvalidAuthority);
    let mut bad = s;
    bad.stake_vault.key = addr(5);
    assert_eq!(stake(&mut bad, 1, MIN, T0).unwrap_err(), StakingError::InvalidMint);
    let mut paused = s;
    paused.stake_pool.paused = true;
    assert_eq!(stake(&mut paused, 1, MIN, T0).unwrap_err(), StakingError::PoolPaused);
    stake(&mut s, u64::MAX, MIN, T0).unwrap();
    assert_eq!(stake(&mut s, 1, MIN, T0).unwrap_err(), StakingError::MathOverflow);
    assert_eq!(s.user_stake.staked_amount, u64::MAX);
    let mut big = stake_ctx(open_pool(1, MIN, MAX), 7, empty_position());
    assert_eq!(stake(&mut big, u64::MAX, MAX, T0).unwrap_err(), StakingError::MathOverflow);
}

#[test]
fn unstake_and_claim_errors() {
    let pool = open_pool(1, MIN, MAX);
    let mut s = stake_ctx(pool, 7, empty_position());
    stake(&mut s, 100, MIN, T0).unwrap();
    let end = s.user_stake.lock_end_time;
    let mut u = unstake_ctx(s.stake_pool, 7, s.user_stake);
    assert_eq!(unstake(&mut u, 0, end).unwrap_err(), StakingError::InvalidAmount);
    assert_eq!(unstake(&mut u, 101, end).unwrap_err(), StakingError::InsufficientStake);
    let mut other = unstake_ctx(s.stake_pool, 8, s.user_stake);
    assert_eq!(unstake(&mut other, 1, end).unwrap_err(), StakingError::InvalidAuthority);
    let mut bad = u;
    bad.stake_vault.key = addr(9);
    assert_eq!(unstake(&mut bad, 1, end).unwrap_err(), StakingError::InvalidMint);

    let mut c = claim_ctx(s.stake_pool, 7, empty_position(), 10);
    c.user_stake.owner = addr(7);
    assert_eq!(claim_rewards(&mut c, end).unwrap_err(), StakingError::InsufficientStake);
    let mut c = claim_ctx(s.stake_pool, 7, s.user_stake, 10);
    assert_eq!(claim_rewards(&mut c, T0).unwrap_err(), StakingError::NoPendingRewards);
    let mut c = claim_ctx(s.stake_pool, 7, s.user_stake, 0);
    assert_eq!(claim_rewards(&mut c, T0 + 100).unwrap_err(), StakingError::NoPendingRewards);
    let mut c = claim_ctx(s.stake_pool, 7, s.user_stake, 10);
    c.user_reward_account.mint = addr(2);
    assert_eq!(claim_rewards(&mut c, T0 + 100).unwrap_err(), StakingError::InvalidMint);
    let mut c = claim_ctx(s.stake_pool, 8, s.user_stake, 10);
    assert_eq!(claim_rewards(&mut c, T0 + 100).unwrap_err(), StakingError::InvalidAuthority);
    let mut c = claim_ctx(s.stake_pool, 7, s.user_stake, 10);
    let ev = claim_rewards(&mut c, T0 + 100).unwrap();
    assert_eq!(ev.amount, 10);
}

#[test]
fn error_messages() {
    assert_eq!(StakingError::PoolPaused.message(), "Stake pool is paused");
    assert_eq!(StakingError::MathOverflow.message(), "Arithmetic overflow occurred");
}

#[test]
fn restaking_an_emptied_position_keeps_its_start_time() {
    let pool = open_pool(100, MIN, MAX);
    let mut s = stake_ctx(pool, 7, empty_position());
    assert!(s.user_stake_is_new);
    stake(&mut s, 5_000, MIN, T0).unwrap();
    assert!(!s.user_stake_is_new);
    let end = s.user_stake.lock_end_time;
    let mut u = unstake_ctx(s.stake_pool, 7, s.user_stake);
    unstake(&mut u, 5_000, end + 10).unwrap();
    assert_eq!(u.user_stake.staked_amount, 0);

    let later = end + 1_000_000;
    let mut again = stake_ctx(u.stake_pool, 7, u.user_stake);
    assert!(!again.user_stake_is_new);
    stake(&mut again, 300, MIN, later).unwrap();
    assert_eq!(again.user_stake.stake_start_time, T0);
    assert_eq!(again.user_stake.owner, addr(7));
    assert_eq!(again.user_stake.lock_end_time, later + MIN);
    assert_eq!(again.user_stake.staked_amount, 300);
}

#[test]
fn every_error_has_its_message() {
    assert_eq!(StakingError::InvalidAmount.message(), "Invalid stake amount - must be greater than zero");
    assert_eq!(StakingError::DurationTooShort.message(), "Lock duration is too short - minimum 7 days required");
    assert_eq!(StakingError::DurationTooLong.message(), "Lock duration is too long - maximum 365 days allowed");
    assert_eq!(StakingError::InsufficientStake.message(), "Insufficient staked balance for this operation");
    assert_eq!(
        StakingError::StillLocked.message(),
        "Tokens are still locked - cannot unstake before lock period ends"
    );
    assert_eq!(StakingError::NoPendingRewards.message(), "No pending rewards to claim");
    assert_eq!(StakingError::InvalidAuthority.message(), "Invalid authority for this operation");
    assert_eq!(StakingError::InvalidMint.message(), "Invalid mint address");
}
