//! The account constraints that the faucet declares, checked in the order in
//! which its instructions check them.
use vstd::prelude::*;

use crate::address::{associated_token_address, is_associated_token_account};
use crate::error::ConstraintError;
use crate::key::Pubkey;
use crate::state::TokenAccount;

verus! {

/// A token account that must hold `mint` and belong to `authority`: the owner
/// is checked first, then the mint.
pub open spec fn spec_check_token_account(acc: TokenAccount, mint: Pubkey, authority: Pubkey) -> Result<(), ConstraintError> {
    if acc.owner@ != authority@ {
        Err(ConstraintError::TokenOwner)
    } else if acc.mint@ != mint@ {
        Err(ConstraintError::TokenMint)
    } else {
        Ok(())
    }
}

/// Checks a token account that must hold `mint` and belong to `authority`.
pub fn check_token_account(acc: &TokenAccount, mint: &Pubkey, authority: &Pubkey) -> (r: Result<(), ConstraintError>)
    ensures
        r == spec_check_token_account(*acc, *mint, *authority),
{
    if acc.owner != *authority {
        Err(ConstraintError::TokenOwner)
    } else if acc.mint != *mint {
        Err(ConstraintError::TokenMint)
    } else {
        Ok(())
    }
}

/// A token account created on demand when missing, which must hold `mint` and
/// belong to `authority`: the mint is checked first, then the owner.
pub open spec fn spec_check_created_token_account(acc: TokenAccount, mint: Pubkey, authority: Pubkey) -> Result<(), ConstraintError> {
    if acc.mint@ != mint@ {
        Err(ConstraintError::TokenMint)
    } else if acc.owner@ != authority@ {
        Err(ConstraintError::TokenOwner)
    } else {
        Ok(())
    }
}

/// Checks a token account created on demand, which must hold `mint` and belong
/// to `authority`.
pub fn check_created_token_account(acc: &TokenAccount, mint: &Pubkey, authority: &Pubkey) -> (r: Result<(), ConstraintError>)
    ensures
        r == spec_check_created_token_account(*acc, *mint, *authority),
{
    if acc.mint != *mint {
        Err(ConstraintError::TokenMint)
    } else if acc.owner != *authority {
        Err(ConstraintError::TokenOwner)
    } else {
        Ok(())
    }
}

/// The associated token account of `wallet` for `mint`: it must belong to
/// `wallet`, and its key must be the derived address.
pub open spec fn spec_check_associated(acc: TokenAccount, wallet: Pubkey, mint: Pubkey) -> Result<(), ConstraintError> {
    if acc.owner@ != wallet@ {
        Err(ConstraintError::TokenOwner)
    } else if associated_token_address(wallet@, mint@) != Some(acc.key@) {
        Err(ConstraintError::Associated)
    } else {
        Ok(())
    }
}

/// Checks that `acc` is the associated token account of `wallet` for `mint`.
pub fn check_associated(acc: &TokenAccount, wallet: &Pubkey, mint: &Pubkey) -> (r: Result<(), ConstraintError>)
    ensures
        r == spec_check_associated(*acc, *wallet, *mint),
{
    if acc.owner != *wallet {
        Err(ConstraintError::TokenOwner)
    } else if !is_associated_token_account(&acc.key, wallet, mint) {
        Err(ConstraintError::Associated)
    } else {
        Ok(())
    }
}

/// The associated token account of `wallet` for `mint`, created on demand when
/// missing: mint, then owner, then the derived address.
pub open spec fn spec_check_created_associated(acc: TokenAccount, wallet: Pubkey, mint: Pubkey) -> Result<(), ConstraintError> {
    if acc.mint@ != mint@ {
        Err(ConstraintError::TokenMint)
    } else if acc.owner@ != wallet@ {
        Err(ConstraintError::TokenOwner)
    } else if associated_token_address(wallet@, mint@) != Some(acc.key@) {
        Err(ConstraintError::NotAssociatedTokenAccount)
    } else {
        Ok(())
    }
}

/// Checks an associated token account of `wallet` for `mint` that was created
/// on demand.
pub fn check_created_associated(acc: &TokenAccount, wallet: &Pubkey, mint: &Pubkey) -> (r: Result<(), ConstraintError>)
    ensures
        r == spec_check_created_associated(*acc, *wallet, *mint),
{
    if acc.mint != *mint {
        Err(ConstraintError::TokenMint)
    } else if acc.owner != *wallet {
        Err(ConstraintError::TokenOwner)
    } else if !is_associated_token_account(&acc.key, wallet, mint) {
        Err(ConstraintError::NotAssociatedTokenAccount)
    } else {
        Ok(())
    }
}

} // verus!
