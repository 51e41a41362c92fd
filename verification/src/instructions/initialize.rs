//! Setting up a faucet for a mint.
use vstd::prelude::*;

use crate::address::{check_seeds, faucet_state_seeds, spec_check_seeds, spec_faucet_state_seeds, spec_token_pool_seeds, token_pool_seeds};
use crate::constraints::{check_created_token_account, spec_check_created_token_account};
use crate::error::{ErrorCode, FaucetError};
use crate::key::Pubkey;
use crate::state::{initialized, Bumps, FaucetState, TokenAccount};

verus! {

/// The accounts of the set-up and update instructions. The faucet state and
/// the token pool are created on demand before the checks, so a new faucet
/// state arrives with every field zero.
#[derive(Clone, Copy, Debug)]
pub struct Initialize {
    /// The faucet program's own id.
    pub program_id: Pubkey,
    /// The faucet state account: the program address of
    /// `[b"faucet_state", mint, authority]`.
    pub faucet_state_key: Pubkey,
    pub faucet_state: FaucetState,
    /// The token pool: the program address of `[b"token_pool", mint, faucet_state]`,
    /// a token account of the mint owned by the faucet state.
    pub token_pool_acc: TokenAccount,
    pub treasury_acc: Pubkey,
    pub allowed_token_mint: Pubkey,
    pub authority: Pubkey,
}

impl Initialize {
    /// What the account checks conclude: the faucet state's seeds, the token
    /// pool's seeds, then the pool's mint and owner.
    pub open spec fn spec_validate(self) -> Result<Bumps, FaucetError> {
        match spec_check_seeds(self.faucet_state_key@, spec_faucet_state_seeds(self.allowed_token_mint@, self.authority@), self.program_id@) {
            Err(e) => Err(FaucetError::Constraint(e)),
            Ok(fb) => match spec_check_seeds(self.token_pool_acc.key@, spec_token_pool_seeds(self.allowed_token_mint@, self.faucet_state_key@), self.program_id@) {
                Err(e) => Err(FaucetError::Constraint(e)),
                Ok(pb) => match spec_check_created_token_account(self.token_pool_acc, self.allowed_token_mint, self.faucet_state_key) {
                    Err(e) => Err(FaucetError::Constraint(e)),
                    Ok(_) => Ok(Bumps { faucet_state: fb, token_pool: pb }),
                },
            },
        }
    }

    /// Checks the accounts' constraints and gives the bump seeds found.
    pub fn validate(&self) -> (r: Result<Bumps, FaucetError>)
        ensures
            r == self.spec_validate(),
    {
        let fb = match check_seeds(&self.faucet_state_key, &faucet_state_seeds(&self.allowed_token_mint, &self.authority), &self.program_id) {
            Ok(b) => b,
            Err(e) => return Err(FaucetError::Constraint(e)),
        };
        let pb = match check_seeds(&self.token_pool_acc.key, &token_pool_seeds(&self.allowed_token_mint, &self.faucet_state_key), &self.program_id) {
            Ok(b) => b,
            Err(e) => return Err(FaucetError::Constraint(e)),
        };
        match check_created_token_account(&self.token_pool_acc, &self.allowed_token_mint, &self.faucet_state_key) {
            Ok(_) => Ok(Bumps { faucet_state: fb, token_pool: pb }),
            Err(e) => Err(FaucetError::Constraint(e)),
        }
    }
}

/// The outcome of setting up the faucet held in `state` for `mint`: refused
/// when the state already names that mint, else the state of a new faucet
/// with an empty pool.
pub open spec fn spec_initialize(state: FaucetState, mint: Pubkey, authority: Pubkey, price_per_token: u64, treasury: Pubkey) -> Result<FaucetState, FaucetError> {
    if state.allowed_token@ == mint@ {
        Err(FaucetError::Faucet(ErrorCode::FaucetAccountAlreadyInitialised))
    } else {
        Ok(initialized(mint, authority, price_per_token, treasury))
    }
}

/// Sets up the faucet: refused when the state already names the mint;
/// otherwise the state records the mint, the authority, the price and the
/// treasury, and its supply starts at zero. Only the faucet state changes.
pub fn handler(ctx: &mut Initialize, price_per_token: u64) -> (r: Result<(), FaucetError>)
    ensures
        match spec_initialize(old(ctx).faucet_state, old(ctx).allowed_token_mint, old(ctx).authority, price_per_token, old(ctx).treasury_acc) {
            Ok(s) => r is Ok && *final(ctx) == (Initialize { faucet_state: s, ..*old(ctx) }),
            Err(e) => r == Err::<(), FaucetError>(e) && *final(ctx) == *old(ctx),
        },
{
    if ctx.faucet_state.allowed_token == ctx.allowed_token_mint {
        return Err(FaucetError::Faucet(ErrorCode::FaucetAccountAlreadyInitialised));
    }
    ctx.faucet_state = FaucetState {
        authority: ctx.authority,
        treasury: ctx.treasury_acc,
        allowed_token: ctx.allowed_token_mint,
        price_per_token,
        total_supply: 0,
    };
    Ok(())
}

} // verus!
