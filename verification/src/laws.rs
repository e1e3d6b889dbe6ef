//! Laws of the state machine, proved over the same spec-level model the
//! operations' contracts are stated in.

use vstd::prelude::*;

use crate::error::ErrorCode;
use crate::staking::StakingPlatform;
use crate::staking::counter_value;
use crate::staking::has_position;
use crate::staking::lemma_position_slot_at;
use crate::staking::new_position;
use crate::staking::position_slot;
use crate::staking::sum_staked;
use crate::staking::unstake_error;

verus! {

/// A stake followed by an unstake before the committed duration has elapsed
/// fails with `StillLocked`. The position a stake pushes records the stake
/// time and the duration, and in any later state holding it, an unstake at
/// a time `now2` with `now2 - now < lock_duration` draws exactly that
/// error, whatever the balances are.
pub proof fn lemma_unstake_before_maturity_fails(
    s1: StakingPlatform,
    s2: StakingPlatform,
    user: u64,
    amount: u64,
    lock_duration: i64,
    now: i64,
    now2: i64,
    vault_balance: u64,
    user_balance: u64,
)
    requires
        s1.wf(),
        s2.wf(),
        s2.positions@ == s1.positions@.push(
            new_position(user, amount, now, lock_duration, counter_value(s1.counters@, user)),
        ),
        now2 - now < lock_duration,
    ensures
        unstake_error(
            s2,
            vault_balance,
            user_balance,
            user,
            now2,
            counter_value(s1.counters@, user),
        ) == Some(ErrorCode::StillLocked),
{
    let idx = counter_value(s1.counters@, user);
    let slot = s1.positions@.len() as int;
    assert(s2.positions@[slot] == new_position(user, amount, now, lock_duration, idx));
    lemma_position_slot_at(s2.positions@, slot);
}

/// A position is destroyed at most once: after a close removes it, a second
/// unstake of the same (owner, index) finds no record and fails with
/// `OwnershipMismatch`, whatever the time and balances are.
pub proof fn lemma_unstake_twice_fails(
    s1: StakingPlatform,
    s2: StakingPlatform,
    user: u64,
    stake_index: u64,
    now: i64,
    vault_balance: u64,
    user_balance: u64,
)
    requires
        s1.wf(),
        has_position(s1.positions@, user, stake_index),
        s2.positions@ == s1.positions@.remove(
            position_slot(s1.positions@, user, stake_index),
        ),
    ensures
        unstake_error(s2, vault_balance, user_balance, user, now, stake_index) == Some(
            ErrorCode::OwnershipMismatch,
        ),
{
    let ps1 = s1.positions@;
    let ps2 = s2.positions@;
    let slot = position_slot(ps1, user, stake_index);
    assert(0 <= slot < ps1.len() && ps1[slot].user == user && ps1[slot].stake_index
        == stake_index);
    if has_position(ps2, user, stake_index) {
        let k = choose|i: int|
            0 <= i < ps2.len() && ps2[i].user == user && ps2[i].stake_index == stake_index;
        let k0: int = if k < slot {
            k
        } else {
            k + 1
        };
        assert(ps2[k] == ps1[k0]);
        if k0 < slot {
            assert(!(ps1[k0].user == ps1[slot].user && ps1[k0].stake_index
                == ps1[slot].stake_index));
        } else {
            assert(!(ps1[slot].user == ps1[k0].user && ps1[slot].stake_index
                == ps1[k0].stake_index));
        }
        assert(false);
    }
}

/// A position index for a given user is assigned exactly once and never
/// reused. Every index at or above the user's counter is unassigned; a
/// stake assigns exactly the counter value and then increments the counter,
/// and no operation ever decreases it, so an index handed out once — even
/// one whose position was later closed — is never handed out again.
pub proof fn lemma_next_index_never_in_use(s: StakingPlatform, user: u64, idx: u64)
    requires
        s.wf(),
        idx >= counter_value(s.counters@, user),
    ensures
        !has_position(s.positions@, user, idx),
{
    let ps = s.positions@;
    if has_position(ps, user, idx) {
        let k = choose|i: int| 0 <= i < ps.len() && ps[i].user == user && ps[i].stake_index == idx;
        assert(ps[k].stake_index < counter_value(s.counters@, ps[k].user));
        assert(false);
    }
}

/// The aggregate invariant: in every well-formed state, `total_staked`
/// equals the sum of the open positions' principal — after any serialized
/// run of stakes and closes, the amounts staked minus the principal of the
/// closed positions. `total_stakes` grows by one per stake and is never
/// decreased, so it counts every position ever opened.
pub proof fn lemma_total_staked_matches_open_positions(s: StakingPlatform)
    requires
        s.wf(),
    ensures
        s.global_stats.total_staked == sum_staked(s.positions@),
{
}

} // verus!
