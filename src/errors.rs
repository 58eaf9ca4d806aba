use vstd::prelude::*;

verus! {

/// Why an operation on the staking ledger was rejected.
#[derive(Clone, Copy, PartialEq, Eq, Debug, Structural)]
pub enum StakingError {
    /// The amount is zero.
    InvalidAmount,
    /// The lock duration is below the pool's minimum.
    DurationTooShort,
    /// The lock duration is above the pool's maximum.
    DurationTooLong,
    /// The position holds too little stake for the operation.
    InsufficientStake,
    /// The position's lock has not ended yet.
    StillLocked,
    /// There is nothing to pay out.
    NoPendingRewards,
    /// A checked arithmetic step overflowed.
    MathOverflow,
    /// The caller is not the required owner or authority.
    InvalidAuthority,
    /// The pool does not accept new stake.
    PoolPaused,
    /// An account does not belong to the pool's configured asset or vault.
    InvalidMint,
}

/// The human-readable message of each error.
pub open spec fn error_text(e: StakingError) -> Seq<char> {
    match e {
        StakingError::InvalidAmount => "Invalid stake amount - must be greater than zero"@,
        StakingError::DurationTooShort => "Lock duration is too short - minimum 7 days required"@,
        StakingError::DurationTooLong => "Lock duration is too long - maximum 365 days allowed"@,
        StakingError::InsufficientStake => "Insufficient staked balance for this operation"@,
        StakingError::StillLocked => "Tokens are still locked - cannot unstake before lock period ends"@,
        StakingError::NoPendingRewards => "No pending rewards to claim"@,
        StakingError::MathOverflow => "Arithmetic overflow occurred"@,
        StakingError::InvalidAuthority => "Invalid authority for this operation"@,
        StakingError::PoolPaused => "Stake pool is paused"@,
        StakingError::InvalidMint => "Invalid mint address"@,
    }
}

impl StakingError {
    /// The human-readable message of this error.
    pub fn message(&self) -> (r: String)
        ensures
            r@ == error_text(*self),
    {
        match self {
            StakingError::InvalidAmount => String::from_str("Invalid stake amount - must be greater than zero"),
            StakingError::DurationTooShort => String::from_str("Lock duration is too short - minimum 7 days required"),
            StakingError::DurationTooLong => String::from_str("Lock duration is too long - maximum 365 days allowed"),
            StakingError::InsufficientStake => String::from_str("Insufficient staked balance for this operation"),
            StakingError::StillLocked => String::from_str("Tokens are still locked - cannot unstake before lock period ends"),
            StakingError::NoPendingRewards => String::from_str("No pending rewards to claim"),
            StakingError::MathOverflow => String::from_str("Arithmetic overflow occurred"),
            StakingError::InvalidAuthority => String::from_str("Invalid authority for this operation"),
            StakingError::PoolPaused => String::from_str("Stake pool is paused"),
            StakingError::InvalidMint => String::from_str("Invalid mint address"),
        }
    }
}

} // verus!
