//! Sending the whole pool back to the authority.
use vstd::prelude::*;

use crate::address::{check_seeds, faucet_signer_seeds, faucet_state_seeds, spec_check_seeds, spec_faucet_signer_seeds, spec_faucet_state_seeds, spec_token_pool_seeds, token_pool_seeds};
use crate::constraints::{check_associated, check_token_account, spec_check_associated, spec_check_token_account};
use crate::error::{ConstraintError, ErrorCode, FaucetError};
use crate::instruction::TokenTransfer;
use crate::key::Pubkey;
use crate::state::{refunded, Bumps, FaucetState, TokenAccount};

verus! {

/// The accounts of the refund instruction.
#[derive(Clone, Copy, Debug)]
pub struct Refund {
    pub program_id: Pubkey,
    /// The faucet state: the program address of `[b"faucet_state", mint, authority]`,
    /// whose authority must be `authority`.
    pub faucet_state_key: Pubkey,
    pub faucet_state: FaucetState,
    /// The pool: the program address of `[b"token_pool", mint, faucet_state]`.
    pub token_pool_acc: TokenAccount,
    /// The authority's associated token account for the mint, which receives.
    pub receiver_ata: TokenAccount,
    pub allowed_token_mint: Pubkey,
    pub authority: Pubkey,
}

impl Refund {
    /// What the account checks conclude, in order: the faucet state's seeds and
    /// authority, the pool's seeds, owner and mint, then the receiving
    /// account's owner and address.
    pub open spec fn spec_validate(self) -> Result<Bumps, FaucetError> {
        match spec_check_seeds(self.faucet_state_key@, spec_faucet_state_seeds(self.allowed_token_mint@, self.authority@), self.program_id@) {
            Err(e) => Err(FaucetError::Constraint(e)),
            Ok(fb) => if self.faucet_state.authority@ != self.authority@ {
                Err(FaucetError::Constraint(ConstraintError::HasOne))
            } else {
                match spec_check_seeds(self.token_pool_acc.key@, spec_token_pool_seeds(self.allowed_token_mint@, self.faucet_state_key@), self.program_id@) {
                    Err(e) => Err(FaucetError::Constraint(e)),
                    Ok(pb) => match spec_check_token_account(self.token_pool_acc, self.allowed_token_mint, self.faucet_state_key) {
                        Err(e) => Err(FaucetError::Constraint(e)),
                        Ok(_) => match spec_check_associated(self.receiver_ata, self.authority, self.allowed_token_mint) {
                            Err(e) => Err(FaucetError::Constraint(e)),
                            Ok(_) => Ok(Bumps { faucet_state: fb, token_pool: pb }),
                        },
                    },
                }
            },
        }
    }

    /// Checks the accounts' constraints and gives the bump seeds found.
    pub fn validate(&self) -> (r: Result<Bumps, FaucetError>)
        ensures
            r == self.spec_validate(),
    {
        let fb = match check_seeds(&self.faucet_state_key, &faucet_state_seeds(&self.allowed_token_mint, &self.authority), &self.program_id) {
            Ok(b) => b,
            Err(e) => return Err(FaucetError::Constraint(e)),
        };
        if self.faucet_state.authority != self.authority {
            return Err(FaucetError::Constraint(ConstraintError::HasOne));
        }
        let pb = match check_seeds(&self.token_pool_acc.key, &token_pool_seeds(&self.allowed_token_mint, &self.faucet_state_key), &self.program_id) {
            Ok(b) => b,
            Err(e) => return Err(FaucetError::Constraint(e)),
        };
        if let Err(e) = check_token_account(&self.token_pool_acc, &self.allowed_token_mint, &self.faucet_state_key) {
            return Err(FaucetError::Constraint(e));
        }
        if let Err(e) = check_associated(&self.receiver_ata, &self.authority, &self.allowed_token_mint) {
            return Err(FaucetError::Constraint(e));
        }
        Ok(Bumps { faucet_state: fb, token_pool: pb })
    }
}

/// The first step of a refund: the transfer of everything the pool holds to the
/// authority's account, authorised by the faucet state, which signs with its
/// seeds and its bump seed `faucet_bump`.
pub fn handler(ctx: &Refund, faucet_bump: u8) -> (t: TokenTransfer)
    ensures
        t.from == ctx.token_pool_acc.key,
        t.to == ctx.receiver_ata.key,
        t.authority == ctx.faucet_state_key,
        t.amount == ctx.token_pool_acc.amount,
        t.signer_seeds.deep_view() == spec_faucet_signer_seeds(ctx.allowed_token_mint@, ctx.authority@, faucet_bump),
{
    TokenTransfer {
        from: ctx.token_pool_acc.key,
        to: ctx.receiver_ata.key,
        authority: ctx.faucet_state_key,
        amount: ctx.token_pool_acc.amount,
        signer_seeds: faucet_signer_seeds(&ctx.allowed_token_mint, &ctx.authority, faucet_bump),
    }
}

/// The last step, once the transfer has run: refused with `AirdropFailed` when
/// it failed, the state unchanged; otherwise the supply is zero and nothing
/// else changes.
pub fn complete(state: &mut FaucetState, transferred: bool) -> (r: Result<(), FaucetError>)
    ensures
        transferred ==> r is Ok && *final(state) == refunded(*old(state)),
        transferred ==> final(state).total_supply == 0 && *final(state) == (FaucetState { total_supply: 0, ..*old(state) }),
        !transferred ==> r == Err::<(), FaucetError>(FaucetError::Faucet(ErrorCode::AirdropFailed)) && *final(state) == *old(state),
{
    if !transferred {
        return Err(FaucetError::Faucet(ErrorCode::AirdropFailed));
    }
    state.total_supply = 0;
    Ok(())
}

} // verus!
