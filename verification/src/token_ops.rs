//! The peripheral token utilities: a bounded owner-signed transfer, a
//! delegation that lets another party move a bounded allowance, the
//! delegated transfer itself, the revocation, and the daily claim faucet.
//! They share no state with the staking core beyond reading the same token
//! identity from the configuration.

use vstd::prelude::*;

use crate::constants::SECONDS_PER_DAY;
use crate::error::ErrorCode;
use crate::state::TokenAccount;
use crate::state::TokenConfig;
use crate::state::UserClaim;

verus! {

/// One token minimum per ad-hoc transfer.
pub const MIN_TRANSFER: u64 = 1_000_000_000;

/// Ten thousand tokens maximum per ad-hoc transfer.
pub const MAX_TRANSFER: u64 = 10_000_000_000_000;

/// Why an owner-signed transfer fails, if it does, in the order the checks
/// run.
pub open spec fn transfer_error(
    from: TokenAccount,
    to: TokenAccount,
    authority: u64,
    amount: u64,
) -> Option<ErrorCode> {
    if amount < MIN_TRANSFER {
        Some(ErrorCode::AmountTooSmall)
    } else if amount > MAX_TRANSFER {
        Some(ErrorCode::AmountTooLarge)
    } else if from.amount < amount {
        Some(ErrorCode::InsufficientBalance)
    } else if from.mint != to.mint {
        Some(ErrorCode::MintMismatch)
    } else if from.owner != authority {
        Some(ErrorCode::OwnershipMismatch)
    } else if to.amount + amount > u64::MAX {
        Some(ErrorCode::ArithmeticOverflow)
    } else {
        None
    }
}

/// Moves `amount` between two balances of the same token type, authorized
/// by the owner of the source. Succeeds entirely or changes nothing.
pub fn transfer(from: &mut TokenAccount, to: &mut TokenAccount, authority: u64, amount: u64) -> (r:
    Result<(), ErrorCode>)
    ensures
        match r {
            Ok(()) => {
                &&& transfer_error(*old(from), *old(to), authority, amount) is None
                &&& *final(from) == (TokenAccount {
                    amount: (old(from).amount - amount) as u64,
                    ..*old(from)
                })
                &&& *final(to) == (TokenAccount {
                    amount: (old(to).amount + amount) as u64,
                    ..*old(to)
                })
            },
            Err(e) => {
                &&& transfer_error(*old(from), *old(to), authority, amount) == Some(e)
                &&& *final(from) == *old(from)
                &&& *final(to) == *old(to)
            },
        },
{
    if amount < MIN_TRANSFER {
        return Err(ErrorCode::AmountTooSmall);
    }
    if amount > MAX_TRANSFER {
        return Err(ErrorCode::AmountTooLarge);
    }
    if from.amount < amount {
        return Err(ErrorCode::InsufficientBalance);
    }
    if from.mint != to.mint {
        return Err(ErrorCode::MintMismatch);
    }
    if from.owner != authority {
        return Err(ErrorCode::OwnershipMismatch);
    }
    let new_to_amount = match to.amount.checked_add(amount) {
        Some(v) => v,
        None => {
            return Err(ErrorCode::ArithmeticOverflow);
        },
    };
    from.amount = from.amount - amount;
    to.amount = new_to_amount;
    Ok(())
}

/// Why a delegation approval fails, if it does.
pub open spec fn approve_error(token_account: TokenAccount, owner: u64, amount: u64) -> Option<
    ErrorCode,
> {
    if amount == 0 {
        Some(ErrorCode::AmountTooSmall)
    } else if token_account.amount < amount {
        Some(ErrorCode::InsufficientBalance)
    } else if token_account.owner != owner {
        Some(ErrorCode::OwnershipMismatch)
    } else {
        None
    }
}

/// Lets `delegate` move up to `amount` out of the owner's balance. A later
/// approval replaces the earlier one.
pub fn approve_delegate(
    token_account: &mut TokenAccount,
    delegate: u64,
    owner: u64,
    amount: u64,
) -> (r: Result<(), ErrorCode>)
    ensures
        match r {
            Ok(()) => {
                &&& approve_error(*old(token_account), owner, amount) is None
                &&& *final(token_account) == (TokenAccount {
                    delegate: Some(delegate),
                    delegated_amount: amount,
                    ..*old(token_account)
                })
            },
            Err(e) => {
                &&& approve_error(*old(token_account), owner, amount) == Some(e)
                &&& *final(token_account) == *old(token_account)
            },
        },
{
    if amount == 0 {
        return Err(ErrorCode::AmountTooSmall);
    }
    if token_account.amount < amount {
        return Err(ErrorCode::InsufficientBalance);
    }
    if token_account.owner != owner {
        return Err(ErrorCode::OwnershipMismatch);
    }
    token_account.delegate = Some(delegate);
    token_account.delegated_amount = amount;
    Ok(())
}

/// Why a delegated transfer fails, if it does, in the order the checks run.
pub open spec fn delegated_transfer_error(
    from: TokenAccount,
    to: TokenAccount,
    delegate: u64,
    amount: u64,
) -> Option<ErrorCode> {
    if amount < MIN_TRANSFER {
        Some(ErrorCode::AmountTooSmall)
    } else if amount > MAX_TRANSFER {
        Some(ErrorCode::AmountTooLarge)
    } else if from.mint != to.mint {
        Some(ErrorCode::MintMismatch)
    } else if from.delegate != Some(delegate) {
        Some(ErrorCode::OwnershipMismatch)
    } else if from.delegated_amount < amount {
        Some(ErrorCode::InsufficientBalance)
    } else if from.amount < amount {
        Some(ErrorCode::InsufficientBalance)
    } else if to.amount + amount > u64::MAX {
        Some(ErrorCode::ArithmeticOverflow)
    } else {
        None
    }
}

/// Moves `amount` out of a balance on behalf of its owner: the caller must
/// be the approved delegate and stay within the remaining allowance. The
/// allowance shrinks by the amount moved and the delegation ends when it
/// reaches zero.
pub fn delegated_transfer(
    from: &mut TokenAccount,
    to: &mut TokenAccount,
    delegate: u64,
    amount: u64,
) -> (r: Result<(), ErrorCode>)
    ensures
        match r {
            Ok(()) => {
                &&& delegated_transfer_error(*old(from), *old(to), delegate, amount) is None
                &&& *final(from) == (TokenAccount {
                    amount: (old(from).amount - amount) as u64,
                    delegate: if old(from).delegated_amount == amount {
                        None
                    } else {
                        old(from).delegate
                    },
                    delegated_amount: (old(from).delegated_amount - amount) as u64,
                    ..*old(from)
                })
                &&& *final(to) == (TokenAccount {
                    amount: (old(to).amount + amount) as u64,
                    ..*old(to)
                })
            },
            Err(e) => {
                &&& delegated_transfer_error(*old(from), *old(to), delegate, amount) == Some(e)
                &&& *final(from) == *old(from)
                &&& *final(to) == *old(to)
            },
        },
{
    if amount < MIN_TRANSFER {
        return Err(ErrorCode::AmountTooSmall);
    }
    if amount > MAX_TRANSFER {
        return Err(ErrorCode::AmountTooLarge);
    }
    if from.mint != to.mint {
        return Err(ErrorCode::MintMismatch);
    }
    let delegate_matches = match from.delegate {
        Some(d) => d == delegate,
        None => false,
    };
    if !delegate_matches {
        return Err(ErrorCode::OwnershipMismatch);
    }
    if from.delegated_amount < amount {
        return Err(ErrorCode::InsufficientBalance);
    }
    if from.amount < amount {
        return Err(ErrorCode::InsufficientBalance);
    }
    let new_to_amount = match to.amount.checked_add(amount) {
        Some(v) => v,
        None => {
            return Err(ErrorCode::ArithmeticOverflow);
        },
    };
    from.amount = from.amount - amount;
    from.delegated_amount = from.delegated_amount - amount;
    if from.delegated_amount == 0 {
        from.delegate = None;
    }
    to.amount = new_to_amount;
    Ok(())
}

/// Why a revocation fails, if it does.
pub open spec fn revoke_error(token_account: TokenAccount, owner: u64) -> Option<ErrorCode> {
    if token_account.owner != owner {
        Some(ErrorCode::OwnershipMismatch)
    } else {
        None
    }
}

/// Ends any standing delegation on the owner's balance.
pub fn revoke_delegate(token_account: &mut TokenAccount, owner: u64) -> (r: Result<(), ErrorCode>)
    ensures
        match r {
            Ok(()) => {
                &&& revoke_error(*old(token_account), owner) is None
                &&& *final(token_account) == (TokenAccount {
                    delegate: None,
                    delegated_amount: 0,
                    ..*old(token_account)
                })
            },
            Err(e) => {
                &&& revoke_error(*old(token_account), owner) == Some(e)
                &&& *final(token_account) == *old(token_account)
            },
        },
{
    if token_account.owner != owner {
        return Err(ErrorCode::OwnershipMismatch);
    }
    token_account.delegate = None;
    token_account.delegated_amount = 0;
    Ok(())
}

/// Why a claim fails, if it does: the cooldown first (skipped for a
/// first-time claimer), then each checked credit.
pub open spec fn claim_error(
    user_claim: UserClaim,
    user_token_account: TokenAccount,
    daily_claim_amount: u64,
    now: i64,
) -> Option<ErrorCode> {
    if user_claim.last_claim_time != 0 && now - user_claim.last_claim_time < SECONDS_PER_DAY {
        Some(ErrorCode::ClaimTooSoon)
    } else if user_token_account.amount + daily_claim_amount > u64::MAX {
        Some(ErrorCode::ArithmeticOverflow)
    } else if user_claim.total_claimed + daily_claim_amount > u64::MAX {
        Some(ErrorCode::ArithmeticOverflow)
    } else {
        None
    }
}

/// The daily faucet: once per day, mints the configured claim amount into
/// the caller's balance and records the claim time. A record the host just
/// created carries user zero; the first successful claim stamps it.
pub fn claim_tokens(
    config: &TokenConfig,
    user_claim: &mut UserClaim,
    user_token_account: &mut TokenAccount,
    user: u64,
    now: i64,
) -> (r: Result<(), ErrorCode>)
    requires
        old(user_token_account).mint == config.mint,
        old(user_token_account).owner == user,
        old(user_claim).user == user || old(user_claim).user == 0,
    ensures
        match r {
            Ok(()) => {
                &&& claim_error(
                    *old(user_claim),
                    *old(user_token_account),
                    config.daily_claim_amount,
                    now,
                ) is None
                &&& *final(user_claim) == (UserClaim {
                    user,
                    last_claim_time: now,
                    total_claimed: (old(user_claim).total_claimed
                        + config.daily_claim_amount) as u64,
                })
                &&& *final(user_token_account) == (TokenAccount {
                    amount: (old(user_token_account).amount + config.daily_claim_amount) as u64,
                    ..*old(user_token_account)
                })
            },
            Err(e) => {
                &&& claim_error(
                    *old(user_claim),
                    *old(user_token_account),
                    config.daily_claim_amount,
                    now,
                ) == Some(e)
                &&& *final(user_claim) == *old(user_claim)
                &&& *final(user_token_account) == *old(user_token_account)
            },
        },
{
    if user_claim.last_claim_time != 0 {
        // Wide arithmetic, so the elapsed-time subtraction cannot overflow.
        let time_elapsed: i128 = (now as i128) - (user_claim.last_claim_time as i128);
        if time_elapsed < (SECONDS_PER_DAY as i128) {
            return Err(ErrorCode::ClaimTooSoon);
        }
    }
    let new_balance = match user_token_account.amount.checked_add(config.daily_claim_amount) {
        Some(v) => v,
        None => {
            return Err(ErrorCode::ArithmeticOverflow);
        },
    };
    let new_total_claimed = match user_claim.total_claimed.checked_add(config.daily_claim_amount) {
        Some(v) => v,
        None => {
            return Err(ErrorCode::ArithmeticOverflow);
        },
    };
    user_token_account.amount = new_balance;
    if user_claim.user == 0 {
        user_claim.user = user;
    }
    user_claim.last_claim_time = now;
    user_claim.total_claimed = new_total_claimed;
    Ok(())
}

} // verus!
