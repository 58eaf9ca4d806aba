//! A pooled staking ledger: lock-weighted stakes share a reward stream through
//! a fixed-point accumulator, with a tiered bonus on claims. Time is passed in
//! explicitly; token transfers are left to the caller.

use vstd::prelude::*;

pub mod constants;
pub mod errors;
pub mod instructions;
pub mod ledger;
pub mod rewards;
pub mod staking;
pub mod state;

use crate::constants::{HOLDER_THRESHOLD, PREMIUM_THRESHOLD, VIP_THRESHOLD};
pub use crate::rewards::{calculate_pending_rewards, calculate_weight_multiplier, update_rewards};
use crate::state::{StakingTier, tier_fee_bps, tier_multiplier_bps, tier_of};

verus! {

/// The tier of a position holding `staked_amount`.
pub fn calculate_tier(staked_amount: u64) -> (r: StakingTier)
    ensures
        r == tier_of(staked_amount as int),
{
    if staked_amount >= VIP_THRESHOLD {
        StakingTier::Vip
    } else if staked_amount >= PREMIUM_THRESHOLD {
        StakingTier::Premium
    } else if staked_amount >= HOLDER_THRESHOLD {
        StakingTier::Holder
    } else {
        StakingTier::NoTier
    }
}

/// Platform fee of `tier`, in basis points.
pub fn get_platform_fee(tier: StakingTier) -> (r: u16)
    ensures
        r as int == tier_fee_bps(tier),
{
    tier.platform_fee_bps()
}

/// Reward multiplier of `tier`, in basis points.
pub fn get_reward_multiplier(tier: StakingTier) -> (r: u64)
    ensures
        r as int == tier_multiplier_bps(tier),
{
    tier.reward_multiplier_bps()
}

} // verus!
