//! The custody transfer protocol: a deposit moves value from a user-owned
//! balance into the pool, authorized by the user; a withdrawal moves value
//! from the pool back out, authorized by the pool's derived signing
//! authority, handed in as a capability. Either direction succeeds entirely
//! or leaves both balances untouched.

use vstd::prelude::*;

use crate::error::ErrorCode;
use crate::state::{TokenAccount, VaultAuthority};

verus! {

/// Why a deposit of `amount` from `from` into `vault` fails, if it does.
pub open spec fn deposit_error(from: TokenAccount, vault: TokenAccount, amount: u64) -> Option<
    ErrorCode,
> {
    if from.mint != vault.mint {
        Some(ErrorCode::MintMismatch)
    } else if from.amount < amount {
        Some(ErrorCode::InsufficientBalance)
    } else if vault.amount + amount > u64::MAX {
        Some(ErrorCode::ArithmeticOverflow)
    } else {
        None
    }
}

/// Why a withdrawal of `amount` from `vault` into `to` fails, if it does.
pub open spec fn withdraw_error(vault: TokenAccount, to: TokenAccount, amount: u64) -> Option<
    ErrorCode,
> {
    if vault.mint != to.mint {
        Some(ErrorCode::MintMismatch)
    } else if vault.amount < amount {
        Some(ErrorCode::InsufficientVaultBalance)
    } else if to.amount + amount > u64::MAX {
        Some(ErrorCode::ArithmeticOverflow)
    } else {
        None
    }
}

/// Transfers `amount` from a user-owned balance into the pool. The user owns
/// `from` and authorizes the deposit directly.
pub fn deposit(from: &mut TokenAccount, vault: &mut TokenAccount, amount: u64) -> (r: Result<
    (),
    ErrorCode,
>)
    ensures
        match r {
            Ok(()) => {
                &&& deposit_error(*old(from), *old(vault), amount) is None
                &&& *final(from) == TokenAccount { amount: (old(from).amount - amount) as u64, ..*old(from) }
                &&& *final(vault) == TokenAccount { amount: (old(vault).amount + amount) as u64, ..*old(vault) }
            },
            Err(e) => {
                &&& deposit_error(*old(from), *old(vault), amount) == Some(e)
                &&& *final(from) == *old(from)
                &&& *final(vault) == *old(vault)
            },
        },
{
    if from.mint != vault.mint {
        return Err(ErrorCode::MintMismatch);
    }
    if from.amount < amount {
        return Err(ErrorCode::InsufficientBalance);
    }
    let new_vault_amount = match vault.amount.checked_add(amount) {
        Some(v) => v,
        None => {
            return Err(ErrorCode::ArithmeticOverflow);
        },
    };
    from.amount = from.amount - amount;
    vault.amount = new_vault_amount;
    Ok(())
}

/// Transfers `amount` from the pool into a user-owned balance. The caller
/// must hold the pool's signing authority: no outbound transfer happens
/// without that capability.
pub fn withdraw(
    vault: &mut TokenAccount,
    to: &mut TokenAccount,
    amount: u64,
    authority: &VaultAuthority,
) -> (r: Result<(), ErrorCode>)
    requires
        old(vault).owner == authority.id,
    ensures
        match r {
            Ok(()) => {
                &&& withdraw_error(*old(vault), *old(to), amount) is None
                &&& *final(vault) == TokenAccount { amount: (old(vault).amount - amount) as u64, ..*old(vault) }
                &&& *final(to) == TokenAccount { amount: (old(to).amount + amount) as u64, ..*old(to) }
            },
            Err(e) => {
                &&& withdraw_error(*old(vault), *old(to), amount) == Some(e)
                &&& *final(vault) == *old(vault)
                &&& *final(to) == *old(to)
            },
        },
{
    if vault.mint != to.mint {
        return Err(ErrorCode::MintMismatch);
    }
    if vault.amount < amount {
        return Err(ErrorCode::InsufficientVaultBalance);
    }
    let new_to_amount = match to.amount.checked_add(amount) {
        Some(v) => v,
        None => {
            return Err(ErrorCode::ArithmeticOverflow);
        },
    };
    vault.amount = vault.amount - amount;
    to.amount = new_to_amount;
    Ok(())
}

} // verus!
