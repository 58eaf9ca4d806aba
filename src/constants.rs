use vstd::prelude::*;

verus! {

/// Minimum lock duration: seven days, in seconds.
pub const MIN_LOCK_DURATION: i64 = 7 * 24 * 60 * 60;

/// Maximum lock duration: 365 days, in seconds.
pub const MAX_LOCK_DURATION: i64 = 365 * 24 * 60 * 60;

/// Fixed-point scale of the reward accumulator.
pub const PRECISION: u128 = 1_000_000_000_000;

/// Basis points denominator (10000 = 100%).
pub const BPS_DENOMINATOR: u64 = 10000;

/// Weight multiplier at the minimum lock duration (1x).
pub const MIN_WEIGHT_MULTIPLIER: u64 = 10000;

/// Weight multiplier at the maximum lock duration (2x).
pub const MAX_WEIGHT_MULTIPLIER: u64 = 20000;

/// Smallest stake of the Holder tier: 1,000 tokens of nine decimals.
pub const HOLDER_THRESHOLD: u64 = 1_000_000_000_000;

/// Smallest stake of the Premium tier: 10,000 tokens.
pub const PREMIUM_THRESHOLD: u64 = 10_000_000_000_000;

/// Smallest stake of the Vip tier: 100,000 tokens.
pub const VIP_THRESHOLD: u64 = 100_000_000_000_000;

} // verus!
