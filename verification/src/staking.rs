//! The stake/unstake state machine. A `StakingPlatform` holds the singleton
//! configuration, the global statistics, the per-user position counters and
//! the open position records; token balances are handed in by the host. Both
//! operations are atomic: every check runs before the first write, so a
//! failure leaves every record and balance exactly as it was.

use vstd::pervasive::VecAdditionalExecFns;
use vstd::prelude::*;

use crate::constants::DAILY_CLAIM_AMOUNT;
use crate::constants::MAX_LOCK_DURATION;
use crate::constants::MAX_STAKE_AMOUNT;
use crate::constants::MIN_LOCK_DURATION;
use crate::constants::MIN_STAKE_AMOUNT;
use crate::constants::SECONDS_PER_YEAR;
use crate::constants::apy_tier;
use crate::constants::get_apy_for_duration;
use crate::custody::deposit;
use crate::custody::withdraw;
use crate::error::ErrorCode;
use crate::events::StakeEvent;
use crate::events::UnstakeEvent;
use crate::state::GlobalStats;
use crate::state::StakeAccount;
use crate::state::StakeCounter;
use crate::state::TokenAccount;
use crate::state::TokenConfig;
use crate::state::VaultAuthority;

verus! {

/// The bounds a stake amount must satisfy at position creation.
pub open spec fn valid_stake_amount(amount: u64) -> bool {
    MIN_STAKE_AMOUNT <= amount <= MAX_STAKE_AMOUNT
}

/// The bounds a lock duration must satisfy at position creation.
pub open spec fn valid_lock_duration(lock_duration: i64) -> bool {
    MIN_LOCK_DURATION <= lock_duration <= MAX_LOCK_DURATION
}

/// Which validation error a (amount, duration) pair draws, if any, in the
/// order the checks run.
pub open spec fn stake_validation_error(amount: u64, lock_duration: i64) -> Option<ErrorCode> {
    if amount < MIN_STAKE_AMOUNT {
        Some(ErrorCode::AmountTooSmall)
    } else if amount > MAX_STAKE_AMOUNT {
        Some(ErrorCode::AmountTooLarge)
    } else if lock_duration < MIN_LOCK_DURATION {
        Some(ErrorCode::DurationTooShort)
    } else if lock_duration > MAX_LOCK_DURATION {
        Some(ErrorCode::DurationTooLong)
    } else {
        None
    }
}

/// The duration/amount validator: fails exactly when a bound is broken, in
/// the order the bounds are checked. No side effects.
pub fn validate_stake(amount: u64, lock_duration: i64) -> (r: Result<(), ErrorCode>)
    ensures
        match r {
            Ok(()) => stake_validation_error(amount, lock_duration) is None,
            Err(e) => stake_validation_error(amount, lock_duration) == Some(e),
        },
{
    if amount < MIN_STAKE_AMOUNT {
        Err(ErrorCode::AmountTooSmall)
    } else if amount > MAX_STAKE_AMOUNT {
        Err(ErrorCode::AmountTooLarge)
    } else if lock_duration < MIN_LOCK_DURATION {
        Err(ErrorCode::DurationTooShort)
    } else if lock_duration > MAX_LOCK_DURATION {
        Err(ErrorCode::DurationTooLong)
    } else {
        Ok(())
    }
}

/// Sum of the principal over a sequence of positions.
pub open spec fn sum_staked(ps: Seq<StakeAccount>) -> int
    decreases ps.len(),
{
    if ps.len() == 0 {
        0
    } else {
        sum_staked(ps.drop_last()) + ps.last().staked_amount
    }
}

/// Whether some counter record belongs to `user`.
pub open spec fn has_counter(cs: Seq<StakeCounter>, user: u64) -> bool {
    exists|i: int| 0 <= i < cs.len() && cs[i].user == user
}

/// The next position index to assign to `user`: the value of the user's
/// counter record, or zero while none exists yet.
pub open spec fn counter_value(cs: Seq<StakeCounter>, user: u64) -> u64 {
    if has_counter(cs, user) {
        cs[choose|i: int| 0 <= i < cs.len() && cs[i].user == user].stake_count
    } else {
        0
    }
}

/// Whether `user` has an open position at `stake_index`.
pub open spec fn has_position(ps: Seq<StakeAccount>, user: u64, stake_index: u64) -> bool {
    exists|i: int| 0 <= i < ps.len() && ps[i].user == user && ps[i].stake_index == stake_index
}

/// The place of that position in the store.
pub open spec fn position_slot(ps: Seq<StakeAccount>, user: u64, stake_index: u64) -> int {
    choose|i: int| 0 <= i < ps.len() && ps[i].user == user && ps[i].stake_index == stake_index
}

/// The open position of `user` at `stake_index`.
pub open spec fn position_at(ps: Seq<StakeAccount>, user: u64, stake_index: u64) -> StakeAccount {
    ps[position_slot(ps, user, stake_index)]
}

/// The position record a successful stake creates.
pub open spec fn new_position(
    user: u64,
    amount: u64,
    now: i64,
    lock_duration: i64,
    stake_index: u64,
) -> StakeAccount {
    StakeAccount { user, staked_amount: amount, staked_at: now, lock_duration, stake_index }
}

/// The accrued reward: `floor(floor(principal * num / denom) * credited /
/// SECONDS_PER_YEAR)`, where (num, denom) is the tier of the committed lock
/// duration and `credited` is that duration itself, never the elapsed time.
/// Truncation happens at each division step, in this order exactly.
pub open spec fn reward_amount(staked_amount: u64, lock_duration: i64) -> int {
    let scaled = (staked_amount as int) * (apy_tier(lock_duration).0 as int);
    let with_apy = scaled / (apy_tier(lock_duration).1 as int);
    (with_apy * (lock_duration as int)) / (SECONDS_PER_YEAR as int)
}

/// Whether one of the two checked multiplications of the reward formula
/// leaves the machine range.
pub open spec fn reward_overflows(staked_amount: u64, lock_duration: i64) -> bool {
    let scaled = (staked_amount as int) * (apy_tier(lock_duration).0 as int);
    let with_apy = scaled / (apy_tier(lock_duration).1 as int);
    scaled > u64::MAX || with_apy * (lock_duration as int) > u64::MAX
}

/// Computes the reward for a position, checking every multiplication.
pub fn calculate_reward(staked_amount: u64, lock_duration: i64) -> (r: Result<u64, ErrorCode>)
    requires
        lock_duration >= 0,
    ensures
        match r {
            Ok(reward) => {
                &&& !reward_overflows(staked_amount, lock_duration)
                &&& reward == reward_amount(staked_amount, lock_duration)
            },
            Err(e) => {
                &&& e == ErrorCode::ArithmeticOverflow
                &&& reward_overflows(staked_amount, lock_duration)
            },
        },
{
    let (apy_numerator, apy_denominator) = get_apy_for_duration(lock_duration);
    let scaled = match staked_amount.checked_mul(apy_numerator) {
        Some(v) => v,
        None => {
            return Err(ErrorCode::ArithmeticOverflow);
        },
    };
    let amount_with_apy = scaled / apy_denominator;
    let credited = match amount_with_apy.checked_mul(lock_duration as u64) {
        Some(v) => v,
        None => {
            return Err(ErrorCode::ArithmeticOverflow);
        },
    };
    Ok(credited / SECONDS_PER_YEAR)
}

/// No (owner, index) pair occurs twice in the position store.
pub open spec fn positions_distinct(ps: Seq<StakeAccount>) -> bool {
    forall|i: int, j: int|
        0 <= i < j < ps.len() ==> !(#[trigger] ps[i].user == #[trigger] ps[j].user
            && ps[i].stake_index == ps[j].stake_index)
}

/// No user owns two counter records.
pub open spec fn counters_distinct(cs: Seq<StakeCounter>) -> bool {
    forall|i: int, j: int| 0 <= i < j < cs.len() ==> #[trigger] cs[i].user != #[trigger] cs[j].user
}

/// Every open position carries an amount and a duration that passed
/// validation at creation.
pub open spec fn positions_valid(ps: Seq<StakeAccount>) -> bool {
    forall|i: int|
        0 <= i < ps.len() ==> valid_stake_amount(#[trigger] ps[i].staked_amount)
            && valid_lock_duration(ps[i].lock_duration)
}

/// Every open position's index lies strictly below its owner's counter, so
/// the next index to assign is never in use.
pub open spec fn positions_below_counters(ps: Seq<StakeAccount>, cs: Seq<StakeCounter>) -> bool {
    forall|i: int|
        0 <= i < ps.len() ==> (#[trigger] ps[i]).stake_index < counter_value(cs, ps[i].user)
}

/// The sum over a pushed sequence grows by exactly the new principal.
pub proof fn lemma_sum_staked_push(ps: Seq<StakeAccount>, p: StakeAccount)
    ensures
        sum_staked(ps.push(p)) == sum_staked(ps) + p.staked_amount,
{
    assert(ps.push(p).drop_last() =~= ps);
    assert(ps.push(p).last() == p);
}

/// The sum is never negative.
pub proof fn lemma_sum_staked_nonneg(ps: Seq<StakeAccount>)
    ensures
        sum_staked(ps) >= 0,
    decreases ps.len(),
{
    if ps.len() > 0 {
        lemma_sum_staked_nonneg(ps.drop_last());
    }
}

/// No single position's principal exceeds the sum.
pub proof fn lemma_sum_staked_element(ps: Seq<StakeAccount>, i: int)
    requires
        0 <= i < ps.len(),
    ensures
        ps[i].staked_amount <= sum_staked(ps),
    decreases ps.len(),
{
    if i == ps.len() - 1 {
        lemma_sum_staked_nonneg(ps.drop_last());
    } else {
        lemma_sum_staked_element(ps.drop_last(), i);
        assert(ps.drop_last()[i] == ps[i]);
    }
}

/// Removing a position shrinks the sum by exactly its principal.
pub proof fn lemma_sum_staked_remove(ps: Seq<StakeAccount>, i: int)
    requires
        0 <= i < ps.len(),
    ensures
        sum_staked(ps.remove(i)) == sum_staked(ps) - ps[i].staked_amount,
    decreases ps.len(),
{
    if i == ps.len() - 1 {
        assert(ps.remove(i) =~= ps.drop_last());
    } else {
        assert(ps.remove(i).drop_last() =~= ps.drop_last().remove(i));
        assert(ps.remove(i).last() == ps.last());
        lemma_sum_staked_remove(ps.drop_last(), i);
        assert(ps.drop_last()[i] == ps[i]);
    }
}

/// With distinct counter records, the counter value of the user at slot `i`
/// is that record's count.
pub proof fn lemma_counter_value_at(cs: Seq<StakeCounter>, i: int)
    requires
        0 <= i < cs.len(),
        counters_distinct(cs),
    ensures
        has_counter(cs, cs[i].user),
        counter_value(cs, cs[i].user) == cs[i].stake_count,
{
    let user = cs[i].user;
    assert(has_counter(cs, user));
    let k = choose|j: int| 0 <= j < cs.len() && cs[j].user == user;
    if k < i {
        assert(cs[k].user != cs[i].user);
    } else if i < k {
        assert(cs[i].user != cs[k].user);
    }
}

/// With a distinct position store, the position found at slot `i` is the one
/// the spec-level lookup names.
pub proof fn lemma_position_slot_at(ps: Seq<StakeAccount>, i: int)
    requires
        0 <= i < ps.len(),
        positions_distinct(ps),
    ensures
        has_position(ps, ps[i].user, ps[i].stake_index),
        position_slot(ps, ps[i].user, ps[i].stake_index) == i,
        position_at(ps, ps[i].user, ps[i].stake_index) == ps[i],
{
    let user = ps[i].user;
    let stake_index = ps[i].stake_index;
    assert(has_position(ps, user, stake_index));
    let k = position_slot(ps, user, stake_index);
    if k < i {
        assert(!(ps[k].user == ps[i].user && ps[k].stake_index == ps[i].stake_index));
    } else if i < k {
        assert(!(ps[i].user == ps[k].user && ps[i].stake_index == ps[k].stake_index));
    }
}

/// If two distinct counter stores agree on every record not belonging to
/// `user`, every user other than `user` has the same counter value in both.
pub proof fn lemma_counter_value_untouched(
    cs_old: Seq<StakeCounter>,
    cs_new: Seq<StakeCounter>,
    user: u64,
    u: u64,
)
    requires
        u != user,
        counters_distinct(cs_old),
        counters_distinct(cs_new),
        forall|j: int|
            0 <= j < cs_old.len() && (#[trigger] cs_old[j]).user != user ==> j < cs_new.len()
                && cs_new[j] == cs_old[j],
        forall|j: int|
            0 <= j < cs_new.len() && (#[trigger] cs_new[j]).user != user ==> j < cs_old.len()
                && cs_new[j] == cs_old[j],
    ensures
        counter_value(cs_new, u) == counter_value(cs_old, u),
{
    if has_counter(cs_old, u) {
        let j = choose|j: int| 0 <= j < cs_old.len() && cs_old[j].user == u;
        assert(cs_new[j] == cs_old[j]);
        lemma_counter_value_at(cs_old, j);
        lemma_counter_value_at(cs_new, j);
    } else {
        if has_counter(cs_new, u) {
            let k = choose|k: int| 0 <= k < cs_new.len() && cs_new[k].user == u;
            assert(cs_new[k] == cs_old[k]);
        }
    }
}

/// Finds the slot of the counter record of `user`, if one exists.
fn find_counter_slot(counters: &Vec<StakeCounter>, user: u64) -> (r: Option<usize>)
    ensures
        match r {
            Some(i) => i < counters@.len() && counters@[i as int].user == user,
            None => !has_counter(counters@, user),
        },
{
    let mut i: usize = 0;
    while i < counters.len()
        invariant
            i <= counters@.len(),
            forall|j: int| 0 <= j < i ==> counters@[j].user != user,
        decreases counters@.len() - i,
    {
        if counters[i].user == user {
            return Some(i);
        }
        i = i + 1;
    }
    None
}

/// Finds the slot of the open position of `user` at `stake_index`, if any.
fn find_position_slot(positions: &Vec<StakeAccount>, user: u64, stake_index: u64) -> (r: Option<
    usize,
>)
    ensures
        match r {
            Some(i) => i < positions@.len() && positions@[i as int].user == user
                && positions@[i as int].stake_index == stake_index,
            None => !has_position(positions@, user, stake_index),
        },
{
    let mut i: usize = 0;
    while i < positions.len()
        invariant
            i <= positions@.len(),
            forall|j: int|
                0 <= j < i ==> !(positions@[j].user == user && positions@[j].stake_index
                    == stake_index),
        decreases positions@.len() - i,
    {
        if positions[i].user == user && positions[i].stake_index == stake_index {
            return Some(i);
        }
        i = i + 1;
    }
    None
}

/// Why a stake fails, if it does, in the order the checks run: validation,
/// the user's balance, then each checked arithmetic step. A stake succeeds
/// if and only if this is `None`.
pub open spec fn stake_error(
    s: StakingPlatform,
    user_balance: u64,
    vault_balance: u64,
    user: u64,
    amount: u64,
    lock_duration: i64,
) -> Option<ErrorCode> {
    if stake_validation_error(amount, lock_duration) is Some {
        stake_validation_error(amount, lock_duration)
    } else if user_balance < amount {
        Some(ErrorCode::InsufficientBalance)
    } else if vault_balance + amount > u64::MAX {
        Some(ErrorCode::ArithmeticOverflow)
    } else if s.global_stats.total_staked + amount > u64::MAX {
        Some(ErrorCode::ArithmeticOverflow)
    } else if s.global_stats.total_stakes + 1 > u64::MAX {
        Some(ErrorCode::ArithmeticOverflow)
    } else if counter_value(s.counters@, user) + 1 > u64::MAX {
        Some(ErrorCode::ArithmeticOverflow)
    } else {
        None
    }
}

/// Why an unstake fails, if it does, in the order the checks run: the
/// lookup by (owner, index), maturity, the reward arithmetic, the owed
/// total, the pool balance, then the checked statistics updates. An unstake
/// succeeds if and only if this is `None`.
pub open spec fn unstake_error(
    s: StakingPlatform,
    vault_balance: u64,
    user_balance: u64,
    user: u64,
    now: i64,
    stake_index: u64,
) -> Option<ErrorCode> {
    if !has_position(s.positions@, user, stake_index) {
        Some(ErrorCode::OwnershipMismatch)
    } else {
        let p = position_at(s.positions@, user, stake_index);
        let reward = reward_amount(p.staked_amount, p.lock_duration);
        if now - p.staked_at < p.lock_duration {
            Some(ErrorCode::StillLocked)
        } else if reward_overflows(p.staked_amount, p.lock_duration) {
            Some(ErrorCode::ArithmeticOverflow)
        } else if p.staked_amount + reward > u64::MAX {
            Some(ErrorCode::ArithmeticOverflow)
        } else if vault_balance < p.staked_amount + reward {
            Some(ErrorCode::InsufficientVaultBalance)
        } else if s.global_stats.total_rewards_paid + reward > u64::MAX {
            Some(ErrorCode::ArithmeticOverflow)
        } else if user_balance + p.staked_amount + reward > u64::MAX {
            Some(ErrorCode::ArithmeticOverflow)
        } else {
            None
        }
    }
}

/// The whole ledger the two operations mutate.
#[derive(Debug)]
pub struct StakingPlatform {
    pub config: TokenConfig,
    pub global_stats: GlobalStats,
    pub counters: Vec<StakeCounter>,
    pub positions: Vec<StakeAccount>,
}

impl StakingPlatform {
    /// Well-formedness, established at initialization and preserved by every
    /// operation:
    /// - a (owner, index) pair identifies at most one open position;
    /// - each user has at most one counter record;
    /// - every open position carries an amount and a duration that were
    ///   valid at creation;
    /// - every open position's index lies below its owner's counter;
    /// - `total_staked` equals the sum of the open positions' principal.
    pub open spec fn wf(self) -> bool {
        &&& positions_distinct(self.positions@)
        &&& counters_distinct(self.counters@)
        &&& positions_valid(self.positions@)
        &&& positions_below_counters(self.positions@, self.counters@)
        &&& self.global_stats.total_staked == sum_staked(self.positions@)
    }

    /// The next position index that a stake by `user` would be assigned.
    pub fn get_stake_count(&self, user: u64) -> (r: u64)
        requires
            self.wf(),
        ensures
            r == counter_value(self.counters@, user),
    {
        match find_counter_slot(&self.counters, user) {
            Some(i) => {
                proof {
                    lemma_counter_value_at(self.counters@, i as int);
                }
                self.counters[i].stake_count
            },
            None => 0,
        }
    }

    /// Caller-verifiable existence: the open position of `user` at
    /// `stake_index`, if it is still open.
    pub fn get_position(&self, user: u64, stake_index: u64) -> (r: Option<StakeAccount>)
        requires
            self.wf(),
        ensures
            match r {
                Some(p) => has_position(self.positions@, user, stake_index) && p == position_at(
                    self.positions@,
                    user,
                    stake_index,
                ),
                None => !has_position(self.positions@, user, stake_index),
            },
    {
        match find_position_slot(&self.positions, user, stake_index) {
            Some(i) => {
                proof {
                    lemma_position_slot_at(self.positions@, i as int);
                }
                Some(self.positions[i])
            },
            None => None,
        }
    }

    /// The stake operation: validate the input, deposit `amount` into
    /// custody, create the position at the caller's current counter value,
    /// bump that counter by one, and grow the global statistics. Every check
    /// runs before the first write, so a failure leaves every record and
    /// both balances exactly as they were.
    pub fn stake(
        &mut self,
        user_token_account: &mut TokenAccount,
        vault: &mut TokenAccount,
        user: u64,
        now: i64,
        amount: u64,
        lock_duration: i64,
    ) -> (r: Result<StakeEvent, ErrorCode>)
        requires
            old(self).wf(),
            old(user_token_account).mint == old(self).config.mint,
            old(user_token_account).owner == user,
            old(vault).mint == old(self).config.mint,
            old(vault).owner == old(self).config.vault_authority,
        ensures
            final(self).wf(),
            final(self).config == old(self).config,
            match r {
                Err(e) => {
                    &&& stake_error(
                        *old(self),
                        old(user_token_account).amount,
                        old(vault).amount,
                        user,
                        amount,
                        lock_duration,
                    ) == Some(e)
                    &&& *final(self) == *old(self)
                    &&& *final(user_token_account) == *old(user_token_account)
                    &&& *final(vault) == *old(vault)
                },
                Ok(ev) => {
                    &&& stake_error(
                        *old(self),
                        old(user_token_account).amount,
                        old(vault).amount,
                        user,
                        amount,
                        lock_duration,
                    ) is None
                    &&& final(self).positions@ == old(self).positions@.push(
                        new_position(
                            user,
                            amount,
                            now,
                            lock_duration,
                            counter_value(old(self).counters@, user),
                        ),
                    )
                    &&& counter_value(final(self).counters@, user) == counter_value(
                        old(self).counters@,
                        user,
                    ) + 1
                    &&& (forall|u: u64|
                        u != user ==> counter_value(final(self).counters@, u) == counter_value(
                            old(self).counters@,
                            u,
                        ))
                    &&& final(self).global_stats == (GlobalStats {
                        total_staked: (old(self).global_stats.total_staked + amount) as u64,
                        total_stakes: (old(self).global_stats.total_stakes + 1) as u64,
                        total_rewards_paid: old(self).global_stats.total_rewards_paid,
                    })
                    &&& *final(user_token_account) == (TokenAccount {
                        amount: (old(user_token_account).amount - amount) as u64,
                        ..*old(user_token_account)
                    })
                    &&& *final(vault) == (TokenAccount {
                        amount: (old(vault).amount + amount) as u64,
                        ..*old(vault)
                    })
                    &&& ev == (StakeEvent {
                        user,
                        stake_index: counter_value(old(self).counters@, user),
                        staked_amount: amount,
                        lock_duration,
                        apy_numerator: apy_tier(lock_duration).0,
                        apy_denominator: apy_tier(lock_duration).1,
                        timestamp: now,
                    })
                },
            },
    {
        match validate_stake(amount, lock_duration) {
            Ok(()) => {},
            Err(e) => {
                return Err(e);
            },
        }
        if user_token_account.amount < amount {
            return Err(ErrorCode::InsufficientBalance);
        }
        if vault.amount.checked_add(amount).is_none() {
            return Err(ErrorCode::ArithmeticOverflow);
        }
        let new_total_staked = match self.global_stats.total_staked.checked_add(amount) {
            Some(v) => v,
            None => {
                return Err(ErrorCode::ArithmeticOverflow);
            },
        };
        let new_total_stakes = match self.global_stats.total_stakes.checked_add(1) {
            Some(v) => v,
            None => {
                return Err(ErrorCode::ArithmeticOverflow);
            },
        };
        let counter_slot = find_counter_slot(&self.counters, user);
        let current_count: u64 = match counter_slot {
            Some(i) => self.counters[i].stake_count,
            None => 0,
        };
        proof {
            if counter_slot is Some {
                lemma_counter_value_at(self.counters@, counter_slot->0 as int);
            }
        }
        assert(current_count == counter_value(self.counters@, user));
        let new_count = match current_count.checked_add(1) {
            Some(v) => v,
            None => {
                return Err(ErrorCode::ArithmeticOverflow);
            },
        };
        // The custody deposit: every failure it could report was ruled out
        // above, so it cannot fail here.
        match deposit(user_token_account, vault, amount) {
            Ok(()) => {},
            Err(_) => {
                proof {
                    assert(false);
                }
                return Err(ErrorCode::ArithmeticOverflow);
            },
        }
        let position = StakeAccount {
            user,
            staked_amount: amount,
            staked_at: now,
            lock_duration,
            stake_index: current_count,
        };
        self.positions.push(position);
        match counter_slot {
            Some(i) => {
                self.counters.set(i, StakeCounter { user, stake_count: new_count });
            },
            None => {
                self.counters.push(StakeCounter { user, stake_count: new_count });
            },
        }
        self.global_stats.total_staked = new_total_staked;
        self.global_stats.total_stakes = new_total_stakes;
        proof {
            let ps_old = old(self).positions@;
            let ps_new = self.positions@;
            let cs_old = old(self).counters@;
            let cs_new = self.counters@;

            lemma_sum_staked_push(ps_old, position);

            // The updated or appended record keeps the store distinct, and
            // holds the new count for `user`.
            let slot: int = match counter_slot {
                Some(i) => i as int,
                None => cs_old.len() as int,
            };
            assert(cs_new.len() == if counter_slot is Some {
                cs_old.len() as int
            } else {
                cs_old.len() + 1int
            });
            assert(cs_new[slot].user == user && cs_new[slot].stake_count == new_count);
            assert forall|a: int| 0 <= a < cs_new.len() && a != slot implies cs_new[a]
                == cs_old[a] by {}
            assert forall|a: int, b: int| 0 <= a < b < cs_new.len() implies cs_new[a].user
                != cs_new[b].user by {
                if a != slot && b != slot {
                    assert(cs_old[a].user != cs_old[b].user);
                } else if a == slot {
                    assert(cs_new[b] == cs_old[b]);
                    if counter_slot is Some {
                        assert(cs_old[a].user != cs_old[b].user);
                        assert(cs_old[a].user == user);
                    }
                } else {
                    assert(cs_new[a] == cs_old[a]);
                    if counter_slot is Some {
                        assert(cs_old[a].user != cs_old[b].user);
                        assert(cs_old[b].user == user);
                    } else {
                        assert(!has_counter(cs_old, user));
                        assert(!(cs_old[a].user == user));
                    }
                }
            }
            lemma_counter_value_at(cs_new, slot);
            assert(counter_value(cs_new, user) == new_count);
            assert forall|u: u64| u != user implies counter_value(cs_new, u) == counter_value(
                cs_old,
                u,
            ) by {
                if counter_slot is Some {
                    assert(cs_old[slot].user == user);
                }
                lemma_counter_value_untouched(cs_old, cs_new, user, u);
            }

            // The new position store stays distinct and below the counters.
            assert(ps_new == ps_old.push(position));
            assert forall|a: int, b: int| 0 <= a < b < ps_new.len() implies !(ps_new[a].user
                == ps_new[b].user && ps_new[a].stake_index == ps_new[b].stake_index) by {
                if b == ps_old.len() {
                    assert(ps_new[a] == ps_old[a]);
                    if ps_old[a].user == user {
                        assert(ps_old[a].stake_index < counter_value(cs_old, user));
                    }
                } else {
                    assert(ps_new[a] == ps_old[a]);
                    assert(ps_new[b] == ps_old[b]);
                }
            }
            assert forall|a: int| 0 <= a < ps_new.len() implies (ps_new[a]).stake_index
                < counter_value(cs_new, ps_new[a].user) by {
                if a == ps_old.len() {
                    assert(counter_value(cs_new, user) == new_count);
                } else {
                    assert(ps_new[a] == ps_old[a]);
                    assert(ps_old[a].stake_index < counter_value(cs_old, ps_old[a].user));
                    if ps_old[a].user != user {
                        lemma_counter_value_untouched(cs_old, cs_new, user, ps_old[a].user);
                    }
                }
            }
            assert forall|a: int| 0 <= a < ps_new.len() implies valid_stake_amount(
                ps_new[a].staked_amount,
            ) && valid_lock_duration(ps_new[a].lock_duration) by {
                if a < ps_old.len() {
                    assert(ps_new[a] == ps_old[a]);
                    assert(valid_stake_amount(ps_old[a].staked_amount));
                }
            }
        }
        let apy = get_apy_for_duration(lock_duration);
        Ok(
            StakeEvent {
                user,
                stake_index: current_count,
                staked_amount: amount,
                lock_duration,
                apy_numerator: apy.0,
                apy_denominator: apy.1,
                timestamp: now,
            },
        )
    }

    /// The unstake operation: look the position up by (owner, index),
    /// require the lock to have matured, recompute the reward from the
    /// committed duration, withdraw principal plus reward from custody under
    /// the pool's signing capability, destroy the position and shrink the
    /// statistics. Every check runs before the first write, so a failure
    /// leaves the position, the pool and the aggregates exactly as they
    /// were.
    pub fn unstake(
        &mut self,
        user_token_account: &mut TokenAccount,
        vault: &mut TokenAccount,
        authority: &VaultAuthority,
        user: u64,
        now: i64,
        stake_index: u64,
    ) -> (r: Result<UnstakeEvent, ErrorCode>)
        requires
            old(self).wf(),
            old(user_token_account).mint == old(self).config.mint,
            old(user_token_account).owner == user,
            old(vault).mint == old(self).config.mint,
            old(vault).owner == old(self).config.vault_authority,
            authority.id == old(self).config.vault_authority,
        ensures
            final(self).wf(),
            final(self).config == old(self).config,
            match r {
                Err(e) => {
                    &&& unstake_error(
                        *old(self),
                        old(vault).amount,
                        old(user_token_account).amount,
                        user,
                        now,
                        stake_index,
                    ) == Some(e)
                    &&& *final(self) == *old(self)
                    &&& *final(user_token_account) == *old(user_token_account)
                    &&& *final(vault) == *old(vault)
                },
                Ok(ev) => {
                    &&& unstake_error(
                        *old(self),
                        old(vault).amount,
                        old(user_token_account).amount,
                        user,
                        now,
                        stake_index,
                    ) is None
                    &&& ({
                        let p = position_at(old(self).positions@, user, stake_index);
                        let reward = reward_amount(p.staked_amount, p.lock_duration);
                        let total = p.staked_amount + reward;
                        &&& final(self).positions@ == old(self).positions@.remove(
                            position_slot(old(self).positions@, user, stake_index),
                        )
                        &&& final(self).counters@ == old(self).counters@
                        &&& final(self).global_stats == (GlobalStats {
                            total_staked: (old(self).global_stats.total_staked
                                - p.staked_amount) as u64,
                            total_stakes: old(self).global_stats.total_stakes,
                            total_rewards_paid: (old(self).global_stats.total_rewards_paid
                                + reward) as u64,
                        })
                        &&& *final(vault) == (TokenAccount {
                            amount: (old(vault).amount - total) as u64,
                            ..*old(vault)
                        })
                        &&& *final(user_token_account) == (TokenAccount {
                            amount: (old(user_token_account).amount + total) as u64,
                            ..*old(user_token_account)
                        })
                        &&& ev == (UnstakeEvent {
                            user,
                            stake_index,
                            principal: p.staked_amount,
                            rewards: reward as u64,
                            total_withdrawn: total as u64,
                            lock_duration: p.lock_duration,
                            apy_numerator: apy_tier(p.lock_duration).0,
                            apy_denominator: apy_tier(p.lock_duration).1,
                            timestamp: now,
                        })
                    })
                },
            },
    {
        let slot = match find_position_slot(&self.positions, user, stake_index) {
            Some(i) => i,
            None => {
                return Err(ErrorCode::OwnershipMismatch);
            },
        };
        let position = self.positions[slot];
        proof {
            lemma_position_slot_at(self.positions@, slot as int);
            assert(valid_stake_amount(position.staked_amount) && valid_lock_duration(
                position.lock_duration,
            ));
        }
        // Wide arithmetic, so the elapsed-time subtraction cannot overflow.
        let time_elapsed: i128 = (now as i128) - (position.staked_at as i128);
        if time_elapsed < (position.lock_duration as i128) {
            return Err(ErrorCode::StillLocked);
        }
        let rewards = match calculate_reward(position.staked_amount, position.lock_duration) {
            Ok(v) => v,
            Err(e) => {
                return Err(e);
            },
        };
        let total_amount = match position.staked_amount.checked_add(rewards) {
            Some(v) => v,
            None => {
                return Err(ErrorCode::ArithmeticOverflow);
            },
        };
        if vault.amount < total_amount {
            return Err(ErrorCode::InsufficientVaultBalance);
        }
        let new_rewards_paid = match self.global_stats.total_rewards_paid.checked_add(rewards) {
            Some(v) => v,
            None => {
                return Err(ErrorCode::ArithmeticOverflow);
            },
        };
        if user_token_account.amount.checked_add(total_amount).is_none() {
            return Err(ErrorCode::ArithmeticOverflow);
        }
        // `total_staked` covers every open position's principal, so this
        // subtraction cannot fail.
        let new_total_staked = match self.global_stats.total_staked.checked_sub(
            position.staked_amount,
        ) {
            Some(v) => v,
            None => {
                proof {
                    lemma_sum_staked_element(self.positions@, slot as int);
                    assert(false);
                }
                return Err(ErrorCode::ArithmeticOverflow);
            },
        };
        // The custody withdrawal, authorized by the pool's capability; every
        // failure it could report was ruled out above, so it cannot fail
        // here.
        match withdraw(vault, user_token_account, total_amount, authority) {
            Ok(()) => {},
            Err(_) => {
                proof {
                    assert(false);
                }
                return Err(ErrorCode::ArithmeticOverflow);
            },
        }
        self.positions.remove(slot);
        self.global_stats.total_staked = new_total_staked;
        self.global_stats.total_rewards_paid = new_rewards_paid;
        proof {
            let ps_old = old(self).positions@;
            let ps_new = self.positions@;
            lemma_sum_staked_remove(ps_old, slot as int);
            assert forall|a: int, b: int| 0 <= a < b < ps_new.len() implies !(ps_new[a].user
                == ps_new[b].user && ps_new[a].stake_index == ps_new[b].stake_index) by {
                let a0: int = if a < slot { a } else { a + 1 };
                let b0: int = if b < slot { b } else { b + 1 };
                assert(ps_new[a] == ps_old[a0]);
                assert(ps_new[b] == ps_old[b0]);
                assert(!(ps_old[a0].user == ps_old[b0].user && ps_old[a0].stake_index
                    == ps_old[b0].stake_index));
            }
            assert forall|a: int| 0 <= a < ps_new.len() implies valid_stake_amount(
                ps_new[a].staked_amount,
            ) && valid_lock_duration(ps_new[a].lock_duration) && ps_new[a].stake_index
                < counter_value(self.counters@, ps_new[a].user) by {
                let a0: int = if a < slot { a } else { a + 1 };
                assert(ps_new[a] == ps_old[a0]);
                assert(valid_stake_amount(ps_old[a0].staked_amount));
                assert(ps_old[a0].stake_index < counter_value(self.counters@, ps_old[a0].user));
            }
        }
        let apy = get_apy_for_duration(position.lock_duration);
        Ok(
            UnstakeEvent {
                user,
                stake_index,
                principal: position.staked_amount,
                rewards,
                total_withdrawn: total_amount,
                lock_duration: position.lock_duration,
                apy_numerator: apy.0,
                apy_denominator: apy.1,
                timestamp: now,
            },
        )
    }
}

/// Creates the system: the configuration record, zeroed statistics, an empty
/// position store, and the custody pool's signing capability, derived once
/// and held by the system from then on.
pub fn initialize(
    mint: u64,
    mint_authority: u64,
    admin: u64,
    vault: u64,
    vault_authority: u64,
) -> (r: (StakingPlatform, VaultAuthority))
    ensures
        r.0.wf(),
        r.0.config == (TokenConfig {
            mint,
            mint_authority,
            admin,
            vault,
            vault_authority,
            daily_claim_amount: DAILY_CLAIM_AMOUNT,
        }),
        r.0.global_stats == (GlobalStats { total_staked: 0, total_stakes: 0, total_rewards_paid: 0 }),
        r.0.positions@.len() == 0,
        r.0.counters@.len() == 0,
        r.1.id == vault_authority,
{
    let platform = StakingPlatform {
        config: TokenConfig {
            mint,
            mint_authority,
            admin,
            vault,
            vault_authority,
            daily_claim_amount: DAILY_CLAIM_AMOUNT,
        },
        global_stats: GlobalStats { total_staked: 0, total_stakes: 0, total_rewards_paid: 0 },
        counters: Vec::new(),
        positions: Vec::new(),
    };
    (platform, VaultAuthority { id: vault_authority })
}

} // verus!
