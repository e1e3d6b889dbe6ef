use devrewards_platform::approve_delegate;
use devrewards_platform::claim_tokens;
use devrewards_platform::delegated_transfer;
use devrewards_platform::revoke_delegate;
use devrewards_platform::transfer;
use devrewards_platform::ErrorCode;
use devrewards_platform::TokenAccount;
use devrewards_platform::TokenConfig;
use devrewards_platform::UserClaim;

const MINT: u64 = 1;

fn account(owner: u64, amount: u64) -> TokenAccount {
    TokenAccount { mint: MINT, owner, amount, delegate: None, delegated_amount: 0 }
}

#[test]
fn transfer_moves_the_amount() {
    let mut from = account(10, 5_000_000_000);
    let mut to = account(11, 0);
    assert_eq!(transfer(&mut from, &mut to, 10, 2_000_000_000), Ok(()));
    assert_eq!(from.amount, 3_000_000_000);
    assert_eq!(to.amount, 2_000_000_000);
}

#[test]
fn transfer_enforces_bounds_and_ownership() {
    let mut from = account(10, 20_000_000_000_000);
    let mut to = account(11, 0);
    assert_eq!(
        transfer(&mut from, &mut to, 10, 999_999_999),
        Err(ErrorCode::AmountTooSmall)
    );
    assert_eq!(
        transfer(&mut from, &mut to, 10, 10_000_000_000_001),
        Err(ErrorCode::AmountTooLarge)
    );
    assert_eq!(
        transfer(&mut from, &mut to, 99, 1_000_000_000),
        Err(ErrorCode::OwnershipMismatch)
    );
    let mut poor = account(10, 500_000_000);
    assert_eq!(
        transfer(&mut poor, &mut to, 10, 1_000_000_000),
        Err(ErrorCode::InsufficientBalance)
    );
    let mut other_mint = TokenAccount {
        mint: MINT + 1,
        owner: 11,
        amount: 0,
        delegate: None,
        delegated_amount: 0,
    };
    assert_eq!(
        transfer(&mut from, &mut other_mint, 10, 1_000_000_000),
        Err(ErrorCode::MintMismatch)
    );
    // Nothing moved in any failed attempt.
    assert_eq!(from.amount, 20_000_000_000_000);
    assert_eq!(to.amount, 0);
}

#[test]
fn transfer_reports_overflow_of_the_destination() {
    let mut from = account(10, 5_000_000_000);
    let mut to = account(11, u64::MAX - 1);
    assert_eq!(
        transfer(&mut from, &mut to, 10, 1_000_000_000),
        Err(ErrorCode::ArithmeticOverflow)
    );
    assert_eq!(to.amount, u64::MAX - 1);
}

#[test]
fn delegation_allows_bounded_transfers_and_expires() {
    let mut from = account(10, 10_000_000_000);
    let mut to = account(11, 0);

    assert_eq!(approve_delegate(&mut from, 50, 10, 3_000_000_000), Ok(()));
    assert_eq!(from.delegate, Some(50));
    assert_eq!(from.delegated_amount, 3_000_000_000);

    assert_eq!(delegated_transfer(&mut from, &mut to, 50, 1_000_000_000), Ok(()));
    assert_eq!(from.amount, 9_000_000_000);
    assert_eq!(from.delegated_amount, 2_000_000_000);
    assert_eq!(from.delegate, Some(50));
    assert_eq!(to.amount, 1_000_000_000);

    // Spending the whole remaining allowance ends the delegation.
    assert_eq!(delegated_transfer(&mut from, &mut to, 50, 2_000_000_000), Ok(()));
    assert_eq!(from.delegated_amount, 0);
    assert_eq!(from.delegate, None);

    assert_eq!(
        delegated_transfer(&mut from, &mut to, 50, 1_000_000_000),
        Err(ErrorCode::OwnershipMismatch)
    );
}

#[test]
fn delegated_transfer_stays_within_the_allowance() {
    let mut from = account(10, 10_000_000_000);
    let mut to = account(11, 0);
    approve_delegate(&mut from, 50, 10, 1_000_000_000).unwrap();
    assert_eq!(
        delegated_transfer(&mut from, &mut to, 50, 2_000_000_000),
        Err(ErrorCode::InsufficientBalance)
    );
    assert_eq!(
        delegated_transfer(&mut from, &mut to, 51, 1_000_000_000),
        Err(ErrorCode::OwnershipMismatch)
    );
    assert_eq!(from.amount, 10_000_000_000);
    assert_eq!(to.amount, 0);
}

#[test]
fn approve_requires_a_positive_covered_amount_from_the_owner() {
    let mut acc = account(10, 1_000_000_000);
    assert_eq!(approve_delegate(&mut acc, 50, 10, 0), Err(ErrorCode::AmountTooSmall));
    assert_eq!(
        approve_delegate(&mut acc, 50, 10, 2_000_000_000),
        Err(ErrorCode::InsufficientBalance)
    );
    assert_eq!(
        approve_delegate(&mut acc, 50, 99, 1_000_000_000),
        Err(ErrorCode::OwnershipMismatch)
    );
    assert_eq!(acc.delegate, None);
}

#[test]
fn revoke_ends_the_delegation() {
    let mut acc = account(10, 1_000_000_000);
    approve_delegate(&mut acc, 50, 10, 1_000_000_000).unwrap();
    assert_eq!(revoke_delegate(&mut acc, 99), Err(ErrorCode::OwnershipMismatch));
    assert_eq!(acc.delegate, Some(50));
    assert_eq!(revoke_delegate(&mut acc, 10), Ok(()));
    assert_eq!(acc.delegate, None);
    assert_eq!(acc.delegated_amount, 0);
}

fn config() -> TokenConfig {
    TokenConfig {
        mint: MINT,
        mint_authority: 2,
        admin: 3,
        vault: 4,
        vault_authority: 5,
        daily_claim_amount: 100_000_000_000,
    }
}

#[test]
fn claim_once_per_day() {
    let cfg = config();
    let mut claim = UserClaim { user: 0, last_claim_time: 0, total_claimed: 0 };
    let mut acc = account(42, 0);

    // A first-time claimer skips the cooldown and gets stamped.
    assert_eq!(claim_tokens(&cfg, &mut claim, &mut acc, 42, 1_000), Ok(()));
    assert_eq!(acc.amount, 100_000_000_000);
    assert_eq!(claim.user, 42);
    assert_eq!(claim.last_claim_time, 1_000);
    assert_eq!(claim.total_claimed, 100_000_000_000);

    // A day has not passed yet.
    assert_eq!(
        claim_tokens(&cfg, &mut claim, &mut acc, 42, 1_000 + 86_399),
        Err(ErrorCode::ClaimTooSoon)
    );
    assert_eq!(acc.amount, 100_000_000_000);

    // Exactly a day later the claim goes through again.
    assert_eq!(claim_tokens(&cfg, &mut claim, &mut acc, 42, 1_000 + 86_400), Ok(()));
    assert_eq!(acc.amount, 200_000_000_000);
    assert_eq!(claim.total_claimed, 200_000_000_000);
}

#[test]
fn claim_reports_overflow_of_the_balance() {
    let cfg = config();
    let mut claim = UserClaim { user: 42, last_claim_time: 0, total_claimed: 0 };
    let mut acc = account(42, u64::MAX - 1);
    assert_eq!(
        claim_tokens(&cfg, &mut claim, &mut acc, 42, 1_000),
        Err(ErrorCode::ArithmeticOverflow)
    );
    assert_eq!(acc.amount, u64::MAX - 1);
    assert_eq!(claim.last_claim_time, 0);
}
