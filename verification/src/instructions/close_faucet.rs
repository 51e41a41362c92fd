//! Closing the pool and the faucet state, their lamports going to the authority.
use vstd::prelude::*;

use crate::address::{check_seeds, faucet_signer_seeds, faucet_state_seeds, spec_check_seeds, spec_faucet_signer_seeds, spec_faucet_state_seeds, spec_token_pool_seeds, token_pool_seeds};
use crate::constraints::{check_associated, check_token_account, spec_check_associated, spec_check_token_account};
use crate::error::{ConstraintError, FaucetError};
use crate::instruction::{CloseProgramAccount, CloseTokenAccount};
use crate::key::Pubkey;
use crate::state::{Bumps, FaucetState, TokenAccount};

verus! {

/// The accounts of the closing instruction.
#[derive(Clone, Copy, Debug)]
pub struct CloseFaucet {
    pub program_id: Pubkey,
    /// The faucet state: the program address of `[b"faucet_state", mint, authority]`,
    /// whose authority must be `authority`; it is closed to the authority.
    pub faucet_state_key: Pubkey,
    pub faucet_state: FaucetState,
    /// The pool: the program address of `[b"token_pool", mint, faucet_state]`.
    pub token_pool_acc: TokenAccount,
    /// The authority's associated token account for the mint.
    pub token_ata: TokenAccount,
    pub allowed_token_mint: Pubkey,
    pub authority: Pubkey,
}

impl CloseFaucet {
    /// What the account checks conclude, in order: the faucet state's seeds,
    /// its authority, and that it is not itself the authority; the pool's
    /// seeds, owner and mint; then the authority's token account's owner and
    /// address.
    pub open spec fn spec_validate(self) -> Result<Bumps, FaucetError> {
        match spec_check_seeds(self.faucet_state_key@, spec_faucet_state_seeds(self.allowed_token_mint@, self.authority@), self.program_id@) {
            Err(e) => Err(FaucetError::Constraint(e)),
            Ok(fb) => if self.faucet_state.authority@ != self.authority@ {
                Err(FaucetError::Constraint(ConstraintError::HasOne))
            } else if self.faucet_state_key@ == self.authority@ {
                Err(FaucetError::Constraint(ConstraintError::Close))
            } else {
                match spec_check_seeds(self.token_pool_acc.key@, spec_token_pool_seeds(self.allowed_token_mint@, self.faucet_state_key@), self.program_id@) {
                    Err(e) => Err(FaucetError::Constraint(e)),
                    Ok(pb) => match spec_check_token_account(self.token_pool_acc, self.allowed_token_mint, self.faucet_state_key) {
                        Err(e) => Err(FaucetError::Constraint(e)),
                        Ok(_) => match spec_check_associated(self.token_ata, self.authority, self.allowed_token_mint) {
                            Err(e) => Err(FaucetError::Constraint(e)),
                            Ok(_) => Ok(Bumps { faucet_state: fb, token_pool: pb }),
                        },
                    },
                }
            },
        }
    }

    /// Checks the accounts' constraints and gives the bump seeds found.
    pub fn validate(&self) -> (r: Result<Bumps, FaucetError>)
        ensures
            r == self.spec_validate(),
    {
        let fb = match check_seeds(&self.faucet_state_key, &faucet_state_seeds(&self.allowed_token_mint, &self.authority), &self.program_id) {
            Ok(b) => b,
            Err(e) => return Err(FaucetError::Constraint(e)),
        };
        if self.faucet_state.authority != self.authority {
            return Err(FaucetError::Constraint(ConstraintError::HasOne));
        }
        if self.faucet_state_key == self.authority {
            return Err(FaucetError::Constraint(ConstraintError::Close));
        }
        let pb = match check_seeds(&self.token_pool_acc.key, &token_pool_seeds(&self.allowed_token_mint, &self.faucet_state_key), &self.program_id) {
            Ok(b) => b,
            Err(e) => return Err(FaucetError::Constraint(e)),
        };
        if let Err(e) = check_token_account(&self.token_pool_acc, &self.allowed_token_mint, &self.faucet_state_key) {
            return Err(FaucetError::Constraint(e));
        }
        if let Err(e) = check_associated(&self.token_ata, &self.authority, &self.allowed_token_mint) {
            return Err(FaucetError::Constraint(e));
        }
        Ok(Bumps { faucet_state: fb, token_pool: pb })
    }
}

/// The first step of closing: closing the pool, its lamports going to the
/// authority, authorised by the faucet state, which signs with its seeds and
/// its bump seed `faucet_bump`.
pub fn handler(ctx: &CloseFaucet, faucet_bump: u8) -> (c: CloseTokenAccount)
    ensures
        c.account == ctx.token_pool_acc.key,
        c.destination == ctx.authority,
        c.authority == ctx.faucet_state_key,
        c.signer_seeds.deep_view() == spec_faucet_signer_seeds(ctx.allowed_token_mint@, ctx.authority@, faucet_bump),
{
    CloseTokenAccount {
        account: ctx.token_pool_acc.key,
        destination: ctx.authority,
        authority: ctx.faucet_state_key,
        signer_seeds: faucet_signer_seeds(&ctx.allowed_token_mint, &ctx.authority, faucet_bump),
    }
}

/// The last step, once the pool's closing has run: its error is handed back
/// unchanged; otherwise the faucet state itself is closed to the authority.
pub fn complete<E>(ctx: &CloseFaucet, closed: Result<(), E>) -> (r: Result<CloseProgramAccount, E>)
    ensures
        match closed {
            Err(e) => r == Err::<CloseProgramAccount, E>(e),
            Ok(_) => r == Ok::<CloseProgramAccount, E>(CloseProgramAccount { account: ctx.faucet_state_key, destination: ctx.authority }),
        },
{
    match closed {
        Err(e) => Err(e),
        Ok(_) => Ok(CloseProgramAccount { account: ctx.faucet_state_key, destination: ctx.authority }),
    }
}

} // verus!
