//! The persistent records: the singleton configuration, the global
//! statistics, the per-user claim record and position counter, the stake
//! position record, and the token balances the custody protocol moves value
//! between. Account identities are plain integers assigned by the host.

use vstd::prelude::*;

verus! {

/// Singleton configuration, created once at initialization and immutable
/// thereafter. Identifies the token type in scope, the custody pool and its
/// withdrawal authority, and the daily claim amount used by the faucet.
#[derive(Clone, Copy, Debug, PartialEq, Eq, Structural)]
pub struct TokenConfig {
    pub mint: u64,
    pub mint_authority: u64,
    pub admin: u64,
    pub vault: u64,
    pub vault_authority: u64,
    pub daily_claim_amount: u64,
}

/// Per-user record of the daily claim faucet.
#[derive(Clone, Copy, Debug, PartialEq, Eq, Structural)]
pub struct UserClaim {
    pub user: u64,
    pub last_claim_time: i64,
    pub total_claimed: u64,
}

/// One stake position: owner, principal, creation time, committed lock
/// duration, and the index assigned from the owner's counter.
#[derive(Clone, Copy, Debug, PartialEq, Eq, Structural)]
pub struct StakeAccount {
    pub user: u64,
    pub staked_amount: u64,
    pub staked_at: i64,
    pub lock_duration: i64,
    pub stake_index: u64,
}

/// Per-user monotonic counter holding the next position index to assign.
#[derive(Clone, Copy, Debug, PartialEq, Eq, Structural)]
pub struct StakeCounter {
    pub user: u64,
    pub stake_count: u64,
}

/// Running totals mutated on every stake and unstake.
#[derive(Clone, Copy, Debug, PartialEq, Eq, Structural)]
pub struct GlobalStats {
    pub total_staked: u64,
    pub total_stakes: u64,
    pub total_rewards_paid: u64,
}

/// One token balance: the token type it holds, its owner, the amount, and
/// an optional delegation (a party allowed to move up to `delegated_amount`
/// out of it).
#[derive(Clone, Copy, Debug, PartialEq, Eq, Structural)]
pub struct TokenAccount {
    pub mint: u64,
    pub owner: u64,
    pub amount: u64,
    pub delegate: Option<u64>,
    pub delegated_amount: u64,
}

/// The program-controlled signing authority of the custody pool, modelled as
/// a capability: instantiated once at initialization, held by the system,
/// and required as an explicit parameter by every pool withdrawal. No value
/// of it with the pool's authority identity can be forged by a caller that
/// was not handed one.
#[derive(Clone, Copy, Debug, PartialEq, Eq, Structural)]
pub struct VaultAuthority {
    pub id: u64,
}

} // verus!
