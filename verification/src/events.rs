//! Informational events emitted by the stake and unstake operations for
//! off-chain observers. They carry no authoritative state.

use vstd::prelude::*;

verus! {

#[derive(Clone, Copy, Debug, PartialEq, Eq, Structural)]
pub struct StakeEvent {
    pub user: u64,
    pub stake_index: u64,
    pub staked_amount: u64,
    pub lock_duration: i64,
    pub apy_numerator: u64,
    pub apy_denominator: u64,
    pub timestamp: i64,
}

#[derive(Clone, Copy, Debug, PartialEq, Eq, Structural)]
pub struct UnstakeEvent {
    pub user: u64,
    pub stake_index: u64,
    pub principal: u64,
    pub rewards: u64,
    pub total_withdrawn: u64,
    pub lock_duration: i64,
    pub apy_numerator: u64,
    pub apy_denominator: u64,
    pub timestamp: i64,
}

} // verus!
