//! Fixed tier schedule, lock-duration and stake-amount bounds, and the APY
//! tier resolver.

use vstd::prelude::*;

verus! {

// Time thresholds (in seconds).
pub const SECONDS_IN_SEVEN_DAYS: i64 = 604_800;
pub const SECONDS_IN_THIRTY_DAYS: i64 = 2_592_000;
pub const SECONDS_IN_NINETY_DAYS: i64 = 7_776_000;

// APY tiers: 7-29 days -> 5%, 30-89 days -> 10%, 90+ days -> 20%.
pub const TIER_1_APY_NUMERATOR: u64 = 5;
pub const TIER_1_APY_DENOMINATOR: u64 = 100;
pub const TIER_2_APY_NUMERATOR: u64 = 10;
pub const TIER_2_APY_DENOMINATOR: u64 = 100;
pub const TIER_3_APY_NUMERATOR: u64 = 20;
pub const TIER_3_APY_DENOMINATOR: u64 = 100;

/// 365 days in seconds; the time base of the reward formula.
pub const SECONDS_PER_YEAR: u64 = 31_536_000;

// Lock duration limits: 7 days to 10 years.
pub const MIN_LOCK_DURATION: i64 = 604_800;
pub const MAX_LOCK_DURATION: i64 = 315_360_000;

// Stake amount limits: 1 token to 100,000 tokens (9-decimal fixed point).
pub const MIN_STAKE_AMOUNT: u64 = 1_000_000_000;
pub const MAX_STAKE_AMOUNT: u64 = 100_000_000_000_000;

/// Amount handed out by the daily claim faucet.
pub const DAILY_CLAIM_AMOUNT: u64 = 100_000_000_000;

/// Cooldown between two claims by the same user.
pub const SECONDS_PER_DAY: i64 = 86_400;

/// The (numerator, denominator) reward-rate pair for a lock duration.
/// Boundaries are inclusive on the lower bound of each tier.
pub open spec fn apy_tier(lock_duration: i64) -> (u64, u64) {
    if lock_duration >= SECONDS_IN_NINETY_DAYS {
        (TIER_3_APY_NUMERATOR, TIER_3_APY_DENOMINATOR)
    } else if lock_duration >= SECONDS_IN_THIRTY_DAYS {
        (TIER_2_APY_NUMERATOR, TIER_2_APY_DENOMINATOR)
    } else {
        (TIER_1_APY_NUMERATOR, TIER_1_APY_DENOMINATOR)
    }
}

/// Returns the (numerator, denominator) APY pair for a lock duration.
pub fn get_apy_for_duration(lock_duration: i64) -> (apy: (u64, u64))
    ensures
        apy == apy_tier(lock_duration),
{
    if lock_duration >= SECONDS_IN_NINETY_DAYS {
        (TIER_3_APY_NUMERATOR, TIER_3_APY_DENOMINATOR)
    } else if lock_duration >= SECONDS_IN_THIRTY_DAYS {
        (TIER_2_APY_NUMERATOR, TIER_2_APY_DENOMINATOR)
    } else {
        (TIER_1_APY_NUMERATOR, TIER_1_APY_DENOMINATOR)
    }
}

} // verus!
