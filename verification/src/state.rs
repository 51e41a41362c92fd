//! The faucet's stored state and the accounts its instructions read.
use vstd::prelude::*;

use crate::key::Pubkey;

verus! {

/// The state a faucet keeps for one mint and one authority.
#[derive(Clone, Copy, Debug)]
pub struct FaucetState {
    /// Who may fund, refund and close the faucet.
    pub authority: Pubkey,
    /// Where airdrop payments go.
    pub treasury: Pubkey,
    /// The mint whose tokens the faucet hands out; all zero until initialised.
    pub allowed_token: Pubkey,
    /// Lamports charged per whole token.
    pub price_per_token: u64,
    /// Tokens the faucet has been funded with and not yet handed out.
    pub total_supply: u64,
}

/// A token account as the instructions read it.
#[derive(Clone, Copy, Debug)]
pub struct TokenAccount {
    pub key: Pubkey,
    pub mint: Pubkey,
    pub owner: Pubkey,
    pub amount: u64,
}

/// A mint as the instructions read it.
#[derive(Clone, Copy, Debug)]
pub struct Mint {
    pub key: Pubkey,
    pub decimals: u8,
}

/// The bump seeds found while checking the program addresses of an instruction.
#[derive(Clone, Copy, Debug)]
pub struct Bumps {
    pub faucet_state: u8,
    pub token_pool: u8,
}

/// The state after a faucet for `mint` is set up by `authority`.
pub open spec fn initialized(mint: Pubkey, authority: Pubkey, price_per_token: u64, treasury: Pubkey) -> FaucetState {
    FaucetState { authority, treasury, allowed_token: mint, price_per_token, total_supply: 0 }
}

/// The state after the price and the treasury are replaced.
pub open spec fn updated(s: FaucetState, price_per_token: u64, treasury: Pubkey) -> FaucetState {
    FaucetState { price_per_token, treasury, ..s }
}

/// The state after the pool receives `amount` more tokens.
pub open spec fn funded(s: FaucetState, amount: u64) -> FaucetState {
    FaucetState { total_supply: (s.total_supply + amount) as u64, ..s }
}

/// The state after `amount` tokens are handed out.
pub open spec fn airdropped(s: FaucetState, amount: u64) -> FaucetState {
    FaucetState { total_supply: (s.total_supply - amount) as u64, ..s }
}

/// The state after the pool is emptied back to the authority.
pub open spec fn refunded(s: FaucetState) -> FaucetState {
    FaucetState { total_supply: 0, ..s }
}

impl FaucetState {
    /// The state of a faucet account just created: every field zero.
    pub fn zeroed() -> (s: FaucetState)
        ensures
            s.authority@ == Seq::new(32, |i: int| 0u8),
            s.treasury@ == Seq::new(32, |i: int| 0u8),
            s.allowed_token@ == Seq::new(32, |i: int| 0u8),
            s.price_per_token == 0,
            s.total_supply == 0,
    {
        FaucetState {
            authority: Pubkey::zero(),
            treasury: Pubkey::zero(),
            allowed_token: Pubkey::zero(),
            price_per_token: 0,
            total_supply: 0,
        }
    }
}

} // verus!
