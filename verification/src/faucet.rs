//! The faucet program's instructions as a client invokes them: each first
//! checks its accounts' constraints, then takes its first step.
use vstd::prelude::*;

use crate::error::{ErrorCode, FaucetError};
use crate::instruction::{is_transfer, CloseTokenAccount, Instruction, TokenTransfer};
use crate::instructions::airdrop::{self, lamports_required, price_fits, Airdrop};
use crate::instructions::close_faucet::{self, CloseFaucet};
use crate::instructions::fund::{self, Fund};
use crate::instructions::initialize::{self, spec_initialize, Initialize};
use crate::instructions::refund::{self, Refund};
use crate::key::Pubkey;
use crate::state::{updated, Bumps, FaucetState};
use crate::address::spec_faucet_signer_seeds;

verus! {

/// Sets up a faucet: the account checks, then the set-up itself.
pub fn initialize_faucet(ctx: &mut Initialize, price_per_token: u64) -> (r: Result<(), FaucetError>)
    ensures
        match old(ctx).spec_validate() {
            Err(e) => r == Err::<(), FaucetError>(e) && *final(ctx) == *old(ctx),
            Ok(_) => match spec_initialize(old(ctx).faucet_state, old(ctx).allowed_token_mint, old(ctx).authority, price_per_token, old(ctx).treasury_acc) {
                Ok(s) => r is Ok && *final(ctx) == (Initialize { faucet_state: s, ..*old(ctx) }),
                Err(e) => r == Err::<(), FaucetError>(e) && *final(ctx) == *old(ctx),
            },
        },
{
    ctx.validate()?;
    initialize::handler(ctx, price_per_token)
}

/// The outcome of updating the faucet held in `state` for `mint`: refused with
/// `FaucetAccountNotInitialised` unless the state names that mint; otherwise
/// the price and the treasury are replaced.
pub open spec fn spec_update(state: FaucetState, mint: Pubkey, price_per_token: u64, treasury: Pubkey) -> Result<FaucetState, FaucetError> {
    if state.allowed_token@ == mint@ {
        Ok(updated(state, price_per_token, treasury))
    } else {
        Err(FaucetError::Faucet(ErrorCode::FaucetAccountNotInitialised))
    }
}

/// Changes the price and the treasury of a faucet set up for the mint; only
/// the faucet state changes.
pub fn update_faucet(ctx: &mut Initialize, price_per_token: u64) -> (r: Result<(), FaucetError>)
    ensures
        match old(ctx).spec_validate() {
            Err(e) => r == Err::<(), FaucetError>(e) && *final(ctx) == *old(ctx),
            Ok(_) => match spec_update(old(ctx).faucet_state, old(ctx).allowed_token_mint, price_per_token, old(ctx).treasury_acc) {
                Ok(s) => r is Ok && *final(ctx) == (Initialize { faucet_state: s, ..*old(ctx) }),
                Err(e) => r == Err::<(), FaucetError>(e) && *final(ctx) == *old(ctx),
            },
        },
{
    ctx.validate()?;
    if ctx.faucet_state.allowed_token != ctx.allowed_token_mint {
        return Err(FaucetError::Faucet(ErrorCode::FaucetAccountNotInitialised));
    }
    ctx.faucet_state.price_per_token = price_per_token;
    ctx.faucet_state.treasury = ctx.treasury_acc;
    Ok(())
}

/// Closes a faucet: the account checks, then the closing of the pool to the
/// authority, signed by the faucet state.
pub fn close_faucet(ctx: &CloseFaucet) -> (r: Result<CloseTokenAccount, FaucetError>)
    ensures
        match ctx.spec_validate() {
            Err(e) => r == Err::<CloseTokenAccount, FaucetError>(e),
            Ok(b) => r matches Ok(c) && {
                &&& c.account == ctx.token_pool_acc.key
                &&& c.destination == ctx.authority
                &&& c.authority == ctx.faucet_state_key
                &&& c.signer_seeds.deep_view() == spec_faucet_signer_seeds(ctx.allowed_token_mint@, ctx.authority@, b.faucet_state)
            },
        },
{
    let bumps = ctx.validate()?;
    Ok(close_faucet::handler(ctx, bumps.faucet_state))
}

/// Funds a faucet with `amount` tokens: the account checks, then the transfer
/// from the authority's account into the pool.
pub fn fund_faucet(ctx: &Fund, amount: u64) -> (r: Result<TokenTransfer, FaucetError>)
    ensures
        match ctx.spec_validate(amount) {
            Err(e) => r == Err::<TokenTransfer, FaucetError>(e),
            Ok(b) => r matches Ok(t) && {
                &&& t.from == ctx.token_ata.key
                &&& t.to == ctx.token_pool_acc.key
                &&& t.authority == ctx.authority
                &&& t.amount == amount
                &&& t.signer_seeds.deep_view() == spec_faucet_signer_seeds(ctx.allowed_token_mint@, ctx.authority@, b.faucet_state)
            },
        },
{
    let bumps = ctx.validate(amount)?;
    Ok(fund::handler(ctx, bumps.faucet_state, amount))
}

/// Sends the whole pool back to the authority: the account checks, then the
/// transfer, signed by the faucet state.
pub fn refund_balance(ctx: &Refund) -> (r: Result<TokenTransfer, FaucetError>)
    ensures
        match ctx.spec_validate() {
            Err(e) => r == Err::<TokenTransfer, FaucetError>(e),
            Ok(b) => r matches Ok(t) && {
                &&& t.from == ctx.token_pool_acc.key
                &&& t.to == ctx.receiver_ata.key
                &&& t.authority == ctx.faucet_state_key
                &&& t.amount == ctx.token_pool_acc.amount
                &&& t.signer_seeds.deep_view() == spec_faucet_signer_seeds(ctx.allowed_token_mint@, ctx.authority@, b.faucet_state)
            },
        },
{
    let bumps = ctx.validate()?;
    Ok(refund::handler(ctx, bumps.faucet_state))
}

/// Requests an airdrop of `airdrop_amount` base units: the account checks,
/// then the price check and the payment to the treasury, given with the bump
/// seeds that the checks found. Once the accounts pass, the price must be
/// computable in 64 bits.
pub fn request_airdrop(ctx: &Airdrop, airdrop_amount: u64) -> (r: Result<(Instruction, Bumps), FaucetError>)
    requires
        ctx.spec_validate(airdrop_amount) is Ok ==> price_fits(airdrop_amount, ctx.allowed_token_mint.decimals, ctx.faucet_state.price_per_token),
    ensures
        match ctx.spec_validate(airdrop_amount) {
            Err(e) => r == Err::<(Instruction, Bumps), FaucetError>(e),
            Ok(b) => {
                let price = lamports_required(airdrop_amount, ctx.allowed_token_mint.decimals, ctx.faucet_state.price_per_token);
                match r {
                    Ok((ix, bumps)) => bumps == b && ctx.signer_lamports >= price && is_transfer(ix, ctx.signer, ctx.treasury_acc, price as u64),
                    Err(e) => ctx.signer_lamports < price && e == FaucetError::Faucet(ErrorCode::InsufficientBalance),
                }
            },
        },
{
    let bumps = ctx.validate(airdrop_amount)?;
    let payment = airdrop::handler(ctx, airdrop_amount)?;
    Ok((payment, bumps))
}

} // verus!
