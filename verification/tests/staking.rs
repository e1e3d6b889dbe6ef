use devrewards_platform::constants::MAX_LOCK_DURATION;
use devrewards_platform::constants::MAX_STAKE_AMOUNT;
use devrewards_platform::constants::MIN_LOCK_DURATION;
use devrewards_platform::constants::MIN_STAKE_AMOUNT;
use devrewards_platform::initialize;
use devrewards_platform::staking::calculate_reward;
use devrewards_platform::staking::validate_stake;
use devrewards_platform::ErrorCode;
use devrewards_platform::StakingPlatform;
use devrewards_platform::TokenAccount;
use devrewards_platform::VaultAuthority;

const MINT: u64 = 1;
const VAULT_OWNER: u64 = 5;
const USER: u64 = 42;

fn setup() -> (StakingPlatform, VaultAuthority, TokenAccount, TokenAccount) {
    let (platform, authority) = initialize(MINT, 2, 3, 4, VAULT_OWNER);
    let user_account = TokenAccount {
        mint: MINT,
        owner: USER,
        amount: 200_000_000_000_000,
        delegate: None,
        delegated_amount: 0,
    };
    let vault = TokenAccount {
        mint: MINT,
        owner: VAULT_OWNER,
        amount: 0,
        delegate: None,
        delegated_amount: 0,
    };
    (platform, authority, user_account, vault)
}

#[test]
fn stake_records_position_and_stats() {
    let (mut platform, _authority, mut user_account, mut vault) = setup();
    let ev = platform
        .stake(&mut user_account, &mut vault, USER, 1_000, 1_000_000_000, 7_776_000)
        .unwrap();
    assert_eq!(ev.user, USER);
    assert_eq!(ev.stake_index, 0);
    assert_eq!(ev.staked_amount, 1_000_000_000);
    assert_eq!(ev.lock_duration, 7_776_000);
    assert_eq!(ev.apy_numerator, 20);
    assert_eq!(ev.apy_denominator, 100);
    assert_eq!(ev.timestamp, 1_000);
    assert_eq!(user_account.amount, 200_000_000_000_000 - 1_000_000_000);
    assert_eq!(vault.amount, 1_000_000_000);
    assert_eq!(platform.global_stats.total_staked, 1_000_000_000);
    assert_eq!(platform.global_stats.total_stakes, 1);
    assert_eq!(platform.global_stats.total_rewards_paid, 0);
    let p = platform.get_position(USER, 0).unwrap();
    assert_eq!(p.staked_amount, 1_000_000_000);
    assert_eq!(p.staked_at, 1_000);
    assert_eq!(p.lock_duration, 7_776_000);
    assert_eq!(platform.get_stake_count(USER), 1);
}

#[test]
fn unstake_pays_principal_plus_reward_exactly_once() {
    let (mut platform, authority, mut user_account, mut vault) = setup();
    // Fund the pool so it can cover the reward on top of the principal.
    vault.amount = 1_000_000_000;
    platform
        .stake(&mut user_account, &mut vault, USER, 1_000, 1_000_000_000, 7_776_000)
        .unwrap();
    let balance_after_stake = user_account.amount;

    let ev = platform
        .unstake(&mut user_account, &mut vault, &authority, USER, 1_000 + 7_776_000, 0)
        .unwrap();
    // reward = floor(floor(1e9 * 20 / 100) * 7_776_000 / 31_536_000)
    assert_eq!(ev.rewards, 49_315_068);
    assert_eq!(ev.principal, 1_000_000_000);
    assert_eq!(ev.total_withdrawn, 1_049_315_068);
    assert_eq!(ev.apy_numerator, 20);
    assert_eq!(user_account.amount, balance_after_stake + 1_049_315_068);
    assert_eq!(vault.amount, 2_000_000_000 - 1_049_315_068);
    assert_eq!(platform.global_stats.total_staked, 0);
    assert_eq!(platform.global_stats.total_rewards_paid, 49_315_068);
    assert_eq!(platform.global_stats.total_stakes, 1);
    assert!(platform.get_position(USER, 0).is_none());
}

#[test]
fn unstake_before_maturity_is_still_locked() {
    let (mut platform, authority, mut user_account, mut vault) = setup();
    vault.amount = 1_000_000_000;
    platform
        .stake(&mut user_account, &mut vault, USER, 1_000, 1_000_000_000, 7_776_000)
        .unwrap();
    let r = platform.unstake(
        &mut user_account,
        &mut vault,
        &authority,
        USER,
        1_000 + 7_776_000 - 1,
        0,
    );
    assert_eq!(r, Err(ErrorCode::StillLocked));
    // The position and every balance are untouched.
    assert!(platform.get_position(USER, 0).is_some());
    assert_eq!(platform.global_stats.total_staked, 1_000_000_000);
    assert_eq!(vault.amount, 2_000_000_000);
}

#[test]
fn unstake_twice_fails_the_second_time() {
    let (mut platform, authority, mut user_account, mut vault) = setup();
    vault.amount = 1_000_000_000;
    platform
        .stake(&mut user_account, &mut vault, USER, 0, 1_000_000_000, 604_800)
        .unwrap();
    platform
        .unstake(&mut user_account, &mut vault, &authority, USER, 604_800, 0)
        .unwrap();
    let r = platform.unstake(&mut user_account, &mut vault, &authority, USER, 604_800, 0);
    assert_eq!(r, Err(ErrorCode::OwnershipMismatch));
}

#[test]
fn another_user_cannot_close_a_position() {
    let (mut platform, authority, mut user_account, mut vault) = setup();
    platform
        .stake(&mut user_account, &mut vault, USER, 0, 1_000_000_000, 604_800)
        .unwrap();
    let other: u64 = 77;
    let mut other_account = TokenAccount {
        mint: MINT,
        owner: other,
        amount: 0,
        delegate: None,
        delegated_amount: 0,
    };
    let r = platform.unstake(&mut other_account, &mut vault, &authority, other, 604_800, 0);
    assert_eq!(r, Err(ErrorCode::OwnershipMismatch));
    assert!(platform.get_position(USER, 0).is_some());
}

#[test]
fn position_indices_are_never_reused() {
    let (mut platform, authority, mut user_account, mut vault) = setup();
    vault.amount = 1_000_000_000;
    let ev0 = platform
        .stake(&mut user_account, &mut vault, USER, 0, 1_000_000_000, 604_800)
        .unwrap();
    assert_eq!(ev0.stake_index, 0);
    platform
        .unstake(&mut user_account, &mut vault, &authority, USER, 604_800, 0)
        .unwrap();
    // Closing position 0 does not hand index 0 out again.
    let ev1 = platform
        .stake(&mut user_account, &mut vault, USER, 604_800, 1_000_000_000, 604_800)
        .unwrap();
    assert_eq!(ev1.stake_index, 1);
    assert_eq!(platform.get_stake_count(USER), 2);
    assert!(platform.get_position(USER, 0).is_none());
    assert!(platform.get_position(USER, 1).is_some());
}

#[test]
fn total_staked_tracks_open_positions_across_users() {
    let (mut platform, authority, mut user_account, mut vault) = setup();
    vault.amount = 1_000_000_000;
    let other: u64 = 77;
    let mut other_account = TokenAccount {
        mint: MINT,
        owner: other,
        amount: 10_000_000_000,
        delegate: None,
        delegated_amount: 0,
    };
    platform
        .stake(&mut user_account, &mut vault, USER, 0, 1_000_000_000, 604_800)
        .unwrap();
    platform
        .stake(&mut other_account, &mut vault, other, 0, 2_000_000_000, 2_592_000)
        .unwrap();
    platform
        .stake(&mut user_account, &mut vault, USER, 0, 3_000_000_000, 7_776_000)
        .unwrap();
    assert_eq!(platform.global_stats.total_staked, 6_000_000_000);
    assert_eq!(platform.global_stats.total_stakes, 3);

    platform
        .unstake(&mut user_account, &mut vault, &authority, USER, 604_800, 0)
        .unwrap();
    // total_staked drops by exactly the closed principal; total_stakes keeps
    // counting every position ever opened.
    assert_eq!(platform.global_stats.total_staked, 5_000_000_000);
    assert_eq!(platform.global_stats.total_stakes, 3);
}

#[test]
fn stake_bounds_are_enforced() {
    let (mut platform, _authority, mut user_account, mut vault) = setup();
    let r = platform.stake(
        &mut user_account,
        &mut vault,
        USER,
        0,
        MIN_STAKE_AMOUNT - 1,
        604_800,
    );
    assert_eq!(r, Err(ErrorCode::AmountTooSmall));
    let r = platform.stake(
        &mut user_account,
        &mut vault,
        USER,
        0,
        MAX_STAKE_AMOUNT + 1,
        604_800,
    );
    assert_eq!(r, Err(ErrorCode::AmountTooLarge));
    let r = platform.stake(
        &mut user_account,
        &mut vault,
        USER,
        0,
        1_000_000_000,
        MIN_LOCK_DURATION - 1,
    );
    assert_eq!(r, Err(ErrorCode::DurationTooShort));
    let r = platform.stake(
        &mut user_account,
        &mut vault,
        USER,
        0,
        1_000_000_000,
        MAX_LOCK_DURATION + 1,
    );
    assert_eq!(r, Err(ErrorCode::DurationTooLong));
    // No effects from any of the rejected attempts.
    assert_eq!(platform.global_stats.total_stakes, 0);
    assert_eq!(user_account.amount, 200_000_000_000_000);
    assert_eq!(vault.amount, 0);
}

#[test]
fn validate_stake_accepts_the_bounds_themselves() {
    assert_eq!(validate_stake(MIN_STAKE_AMOUNT, MIN_LOCK_DURATION), Ok(()));
    assert_eq!(validate_stake(MAX_STAKE_AMOUNT, MAX_LOCK_DURATION), Ok(()));
}

#[test]
fn stake_with_insufficient_balance_fails() {
    let (mut platform, _authority, mut user_account, mut vault) = setup();
    user_account.amount = 999_999_999;
    let r = platform.stake(&mut user_account, &mut vault, USER, 0, 1_000_000_000, 604_800);
    assert_eq!(r, Err(ErrorCode::InsufficientBalance));
    assert_eq!(user_account.amount, 999_999_999);
}

#[test]
fn unstake_with_underfunded_pool_changes_nothing() {
    let (mut platform, authority, mut user_account, mut vault) = setup();
    // Nothing beyond the principal ever enters the pool, so the reward
    // cannot be covered.
    platform
        .stake(&mut user_account, &mut vault, USER, 0, 1_000_000_000, 7_776_000)
        .unwrap();
    let balance_after_stake = user_account.amount;
    let r = platform.unstake(&mut user_account, &mut vault, &authority, USER, 7_776_000, 0);
    assert_eq!(r, Err(ErrorCode::InsufficientVaultBalance));
    // The position, the pool and the aggregates are all unchanged.
    assert!(platform.get_position(USER, 0).is_some());
    assert_eq!(vault.amount, 1_000_000_000);
    assert_eq!(user_account.amount, balance_after_stake);
    assert_eq!(platform.global_stats.total_staked, 1_000_000_000);
    assert_eq!(platform.global_stats.total_rewards_paid, 0);
}

#[test]
fn reward_formula_matches_reference_values() {
    // floor(floor(1e9 * 20 / 100) * 7_776_000 / 31_536_000)
    assert_eq!(calculate_reward(1_000_000_000, 7_776_000), Ok(49_315_068));
    // floor(floor(1e9 * 5 / 100) * 604_800 / 31_536_000)
    assert_eq!(calculate_reward(1_000_000_000, 604_800), Ok(958_904));
    // floor(floor(1e9 * 10 / 100) * 2_592_000 / 31_536_000)
    assert_eq!(calculate_reward(1_000_000_000, 2_592_000), Ok(8_219_178));
}

#[test]
fn reward_overflow_is_reported_not_wrapped() {
    // The largest stake held for the longest duration overflows the second
    // multiplication of the reward formula.
    assert_eq!(
        calculate_reward(MAX_STAKE_AMOUNT, MAX_LOCK_DURATION),
        Err(ErrorCode::ArithmeticOverflow)
    );
}

#[test]
fn unstake_surfaces_reward_overflow() {
    let (mut platform, authority, mut user_account, mut vault) = setup();
    platform
        .stake(&mut user_account, &mut vault, USER, 0, MAX_STAKE_AMOUNT, MAX_LOCK_DURATION)
        .unwrap();
    let r = platform.unstake(
        &mut user_account,
        &mut vault,
        &authority,
        USER,
        MAX_LOCK_DURATION,
        0,
    );
    assert_eq!(r, Err(ErrorCode::ArithmeticOverflow));
    assert!(platform.get_position(USER, 0).is_some());
}
