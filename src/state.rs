use vstd::prelude::*;

use crate::constants::{HOLDER_THRESHOLD, PREMIUM_THRESHOLD, VIP_THRESHOLD};

verus! {

/// Staking tier, by the raw amount a position holds.
#[derive(Clone, Copy, PartialEq, Eq, Debug, Structural)]
pub enum StakingTier {
    /// Under 1,000 tokens.
    NoTier,
    /// 1,000 tokens or more.
    Holder,
    /// 10,000 tokens or more.
    Premium,
    /// 100,000 tokens or more.
    Vip,
}

/// The tier of a position that holds `amount` smallest units.
pub open spec fn tier_of(amount: int) -> StakingTier {
    if amount >= VIP_THRESHOLD {
        StakingTier::Vip
    } else if amount >= PREMIUM_THRESHOLD {
        StakingTier::Premium
    } else if amount >= HOLDER_THRESHOLD {
        StakingTier::Holder
    } else {
        StakingTier::NoTier
    }
}

/// Platform fee schedule, in basis points.
pub open spec fn tier_fee_bps(t: StakingTier) -> int {
    match t {
        StakingTier::NoTier => 500,
        StakingTier::Holder => 400,
        StakingTier::Premium => 200,
        StakingTier::Vip => 0,
    }
}

/// Reward multiplier schedule, in basis points.
pub open spec fn tier_multiplier_bps(t: StakingTier) -> int {
    match t {
        StakingTier::NoTier => 10000,
        StakingTier::Holder => 11000,
        StakingTier::Premium => 12500,
        StakingTier::Vip => 15000,
    }
}

impl Default for StakingTier {
    fn default() -> (r: StakingTier)
        ensures
            r == StakingTier::NoTier,
    {
        StakingTier::NoTier
    }
}

impl StakingTier {
    /// Platform fee of this tier, in basis points (500 = 5%).
    pub fn platform_fee_bps(&self) -> (r: u16)
        ensures
            r as int == tier_fee_bps(*self),
    {
        match self {
            StakingTier::NoTier => 500,
            StakingTier::Holder => 400,
            StakingTier::Premium => 200,
            StakingTier::Vip => 0,
        }
    }

    /// Reward multiplier of this tier, in basis points (10000 = 1x).
    pub fn reward_multiplier_bps(&self) -> (r: u64)
        ensures
            r as int == tier_multiplier_bps(*self),
    {
        match self {
            StakingTier::NoTier => 10000,
            StakingTier::Holder => 11000,
            StakingTier::Premium => 12500,
            StakingTier::Vip => 15000,
        }
    }
}

/// A 32-byte account identity (a public key).
#[derive(Clone, Copy, Debug, PartialEq, Eq)]
pub struct Address {
    pub bytes: [u8; 32],
}

impl View for Address {
    type V = Seq<u8>;

    open spec fn view(&self) -> Seq<u8> {
        self.bytes@
    }
}

impl Address {
    pub fn new(bytes: [u8; 32]) -> (r: Address)
        ensures
            r.bytes == bytes,
    {
        Address { bytes }
    }

    /// Whether two identities are the same key.
    pub fn same(&self, other: &Address) -> (r: bool)
        ensures
            r == (self@ == other@),
    {
        let mut i: usize = 0;
        while i < 32
            invariant
                0 <= i <= 32,
                forall|j: int| 0 <= j < i ==> self@[j] == other@[j],
            decreases 32 - i,
        {
            if self.bytes[i] != other.bytes[i] {
                return false;
            }
            i = i + 1;
        }
        proof {
            assert(self@ =~= other@);
        }
        true
    }
}

/// A token account as the ledger sees it: its key, asset, owner and balance.
#[derive(Clone, Copy, Debug)]
pub struct TokenAccount {
    pub key: Address,
    pub mint: Address,
    pub owner: Address,
    pub amount: u64,
}

/// The configured lock range is well formed: `0 <= min <= max`.
pub open spec fn pool_wf(p: StakePool) -> bool {
    0 <= p.min_lock_duration <= p.max_lock_duration
}

/// The pool: aggregate stake and the reward accumulator of one staking program.
#[derive(Clone, Copy, Debug)]
pub struct StakePool {
    /// Identity permitted to configure the pool.
    pub authority: Address,
    /// Asset that is staked.
    pub stake_mint: Address,
    /// Asset that rewards are paid in.
    pub reward_mint: Address,
    /// Vault holding the staked tokens.
    pub stake_vault: Address,
    /// Vault holding the reward tokens.
    pub reward_vault: Address,
    /// Sum of the positions' raw staked amounts.
    pub total_staked: u64,
    /// Sum of the positions' weighted stakes.
    pub total_weighted_stake: u64,
    /// Reward units distributed per second.
    pub reward_rate: u64,
    /// Cumulative reward per unit of weighted stake, scaled by `PRECISION`.
    pub accumulated_reward_per_share: u128,
    /// Last instant the accumulator was advanced (unix seconds).
    pub last_reward_time: i64,
    /// Shortest lock a stake may choose, in seconds.
    pub min_lock_duration: i64,
    /// Longest lock a stake may choose, in seconds.
    pub max_lock_duration: i64,
    /// When set, new stakes are rejected.
    pub paused: bool,
    /// Address-derivation bump of the pool account.
    pub bump: u8,
    /// Room for fields added later.
    pub reserved: [u8; 64],
}

/// One owner's position in a pool.
#[derive(Clone, Copy, Debug)]
pub struct UserStake {
    /// Owner of the position.
    pub owner: Address,
    /// The pool the position belongs to.
    pub stake_pool: Address,
    /// Raw amount staked.
    pub staked_amount: u64,
    /// Stake weighted by the lock-duration multiplier.
    pub weighted_stake: u64,
    /// Unix time at which the lock ends.
    pub lock_end_time: i64,
    /// Lock duration chosen at the last lock-extending stake.
    pub lock_duration: i64,
    /// Accrual already priced into the position, scaled like the accumulator.
    pub reward_debt: u128,
    /// Rewards paid out so far.
    pub total_claimed: u64,
    /// Time of the first stake.
    pub stake_start_time: i64,
    /// Address-derivation bump of the position account.
    pub bump: u8,
    /// Room for fields added later.
    pub reserved: [u8; 32],
}

} // verus!
