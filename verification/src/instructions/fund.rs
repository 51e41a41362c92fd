//! Moving tokens from the authority into the faucet's pool.
use vstd::prelude::*;

use crate::address::{check_seeds, faucet_signer_seeds, faucet_state_seeds, spec_check_seeds, spec_faucet_signer_seeds, spec_faucet_state_seeds, spec_token_pool_seeds, token_pool_seeds};
use crate::constraints::{check_associated, check_token_account, spec_check_associated, spec_check_token_account};
use crate::error::{ConstraintError, ErrorCode, FaucetError};
use crate::instruction::TokenTransfer;
use crate::key::Pubkey;
use crate::state::{funded, Bumps, FaucetState, TokenAccount};

verus! {

/// The accounts of the funding instruction.
#[derive(Clone, Copy, Debug)]
pub struct Fund {
    pub program_id: Pubkey,
    /// The faucet state: the program address of `[b"faucet_state", mint, authority]`,
    /// whose authority must be `authority`.
    pub faucet_state_key: Pubkey,
    pub faucet_state: FaucetState,
    /// The pool: the program address of `[b"token_pool", mint, faucet_state]`,
    /// owned by the faucet state and holding the mint.
    pub token_pool_acc: TokenAccount,
    /// The authority's associated token account for the mint, which pays.
    pub token_ata: TokenAccount,
    pub allowed_token_mint: Pubkey,
    pub authority: Pubkey,
}

impl Fund {
    /// What the account checks conclude for funding with `amount`, in order:
    /// the faucet state's seeds and authority, the pool's seeds, owner and
    /// mint, then the paying account's owner and address, and that `amount`
    /// is positive and covered by it.
    pub open spec fn spec_validate(self, amount: u64) -> Result<Bumps, FaucetError> {
        match spec_check_seeds(self.faucet_state_key@, spec_faucet_state_seeds(self.allowed_token_mint@, self.authority@), self.program_id@) {
            Err(e) => Err(FaucetError::Constraint(e)),
            Ok(fb) => if self.faucet_state.authority@ != self.authority@ {
                Err(FaucetError::Constraint(ConstraintError::HasOne))
            } else {
                match spec_check_seeds(self.token_pool_acc.key@, spec_token_pool_seeds(self.allowed_token_mint@, self.faucet_state_key@), self.program_id@) {
                    Err(e) => Err(FaucetError::Constraint(e)),
                    Ok(pb) => match spec_check_token_account(self.token_pool_acc, self.allowed_token_mint, self.faucet_state_key) {
                        Err(e) => Err(FaucetError::Constraint(e)),
                        Ok(_) => match spec_check_associated(self.token_ata, self.authority, self.allowed_token_mint) {
                            Err(e) => Err(FaucetError::Constraint(e)),
                            Ok(_) => if !(amount > 0 && self.token_ata.amount >= amount) {
                                Err(FaucetError::Faucet(ErrorCode::InsufficientBalance))
                            } else {
                                Ok(Bumps { faucet_state: fb, token_pool: pb })
                            },
                        },
                    },
                }
            },
        }
    }

    /// Checks the accounts' constraints for funding with `amount` and gives the
    /// bump seeds found.
    pub fn validate(&self, amount: u64) -> (r: Result<Bumps, FaucetError>)
        ensures
            r == self.spec_validate(amount),
    {
        let fb = match check_seeds(&self.faucet_state_key, &faucet_state_seeds(&self.allowed_token_mint, &self.authority), &self.program_id) {
            Ok(b) => b,
            Err(e) => return Err(FaucetError::Constraint(e)),
        };
        if self.faucet_state.authority != self.authority {
            return Err(FaucetError::Constraint(ConstraintError::HasOne));
        }
        let pb = match check_seeds(&self.token_pool_acc.key, &token_pool_seeds(&self.allowed_token_mint, &self.faucet_state_key), &self.program_id) {
            Ok(b) => b,
            Err(e) => return Err(FaucetError::Constraint(e)),
        };
        if let Err(e) = check_token_account(&self.token_pool_acc, &self.allowed_token_mint, &self.faucet_state_key) {
            return Err(FaucetError::Constraint(e));
        }
        if let Err(e) = check_associated(&self.token_ata, &self.authority, &self.allowed_token_mint) {
            return Err(FaucetError::Constraint(e));
        }
        if !(amount > 0 && self.token_ata.amount >= amount) {
            return Err(FaucetError::Faucet(ErrorCode::InsufficientBalance));
        }
        Ok(Bumps { faucet_state: fb, token_pool: pb })
    }
}

/// The first step of funding: the transfer of `amount` tokens from the
/// authority's account into the pool, authorised by the authority and signed
/// as well with the faucet state's seeds and its bump seed `faucet_bump`.
pub fn handler(ctx: &Fund, faucet_bump: u8, amount: u64) -> (t: TokenTransfer)
    ensures
        t.from == ctx.token_ata.key,
        t.to == ctx.token_pool_acc.key,
        t.authority == ctx.authority,
        t.amount == amount,
        t.signer_seeds.deep_view() == spec_faucet_signer_seeds(ctx.allowed_token_mint@, ctx.authority@, faucet_bump),
{
    TokenTransfer {
        from: ctx.token_ata.key,
        to: ctx.token_pool_acc.key,
        authority: ctx.authority,
        amount,
        signer_seeds: faucet_signer_seeds(&ctx.allowed_token_mint, &ctx.authority, faucet_bump),
    }
}

/// The last step of funding, once the transfer has run: refused with
/// `TransferFailed` when it failed, the state unchanged; otherwise the supply
/// grows by `amount` and nothing else changes.
pub fn complete(state: &mut FaucetState, amount: u64, transferred: bool) -> (r: Result<(), FaucetError>)
    requires
        transferred ==> old(state).total_supply + amount <= u64::MAX,
    ensures
        transferred ==> r is Ok && *final(state) == funded(*old(state), amount),
        transferred ==> final(state).total_supply == old(state).total_supply + amount && *final(state) == (FaucetState { total_supply: final(state).total_supply, ..*old(state) }),
        !transferred ==> r == Err::<(), FaucetError>(FaucetError::Faucet(ErrorCode::TransferFailed)) && *final(state) == *old(state),
{
    if !transferred {
        return Err(FaucetError::Faucet(ErrorCode::TransferFailed));
    }
    state.total_supply = state.total_supply + amount;
    Ok(())
}

} // verus!
