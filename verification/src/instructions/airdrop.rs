//! Handing out tokens from the pool to a requester who pays for them.
use vstd::prelude::*;
use vstd::arithmetic::power::{lemma_pow_increases, lemma_pow_positive, pow};

use crate::address::{check_seeds, faucet_signer_seeds, faucet_state_seeds, spec_check_seeds, spec_faucet_signer_seeds, spec_faucet_state_seeds, spec_token_pool_seeds, token_pool_seeds};
use crate::constraints::{check_created_associated, check_token_account, spec_check_created_associated, spec_check_token_account};
use crate::error::{ConstraintError, ErrorCode, FaucetError};
use crate::instruction::{is_transfer, system_transfer, Instruction, TokenTransfer};
use crate::key::Pubkey;
use crate::state::{airdropped, Bumps, FaucetState, Mint, TokenAccount};

verus! {

/// The accounts of the airdrop instruction. The receiving account is created
/// on demand before the checks.
#[derive(Clone, Copy, Debug)]
pub struct Airdrop {
    pub program_id: Pubkey,
    /// The faucet state: the program address of
    /// `[b"faucet_state", mint, faucet_authority]`.
    pub faucet_state_key: Pubkey,
    pub faucet_state: FaucetState,
    /// The pool: the program address of `[b"token_pool", mint, faucet_state]`.
    pub token_pool_acc: TokenAccount,
    /// The faucet's mint, which must be the state's allowed token.
    pub allowed_token_mint: Mint,
    /// Must be the state's authority.
    pub faucet_authority: Pubkey,
    /// Must be the state's treasury; it receives the payment.
    pub treasury_acc: Pubkey,
    /// The requester's associated token account for the mint.
    pub receiver_ata: TokenAccount,
    /// The requester, who pays.
    pub signer: Pubkey,
    /// The requester's lamports.
    pub signer_lamports: u64,
}

/// The lamports an airdrop of `amount` base units costs: whole tokens, rounded
/// down, times the price per token.
pub open spec fn lamports_required(amount: u64, decimals: u8, price_per_token: u64) -> int {
    (amount as int / pow(10, decimals as nat)) * price_per_token
}

/// Whether the price of an airdrop can be computed without overflow: ten to
/// the power of the mint's decimals, and the price itself, fit in 64 bits.
pub open spec fn price_fits(amount: u64, decimals: u8, price_per_token: u64) -> bool {
    &&& decimals <= 19
    &&& lamports_required(amount, decimals, price_per_token) <= u64::MAX
}

/// `10` to the power `decimals`.
fn ten_to_the(decimals: u8) -> (p: u64)
    requires
        decimals <= 19,
    ensures
        p == pow(10, decimals as nat),
{
    let mut p: u64 = 1;
    let mut i: u8 = 0;
    proof {
        reveal_with_fuel(pow, 1);
    }
    while i < decimals
        invariant
            i <= decimals <= 19,
            p == pow(10, i as nat),
        decreases decimals - i,
    {
        proof {
            lemma_pow_increases(10, i as nat, 18);
            reveal_with_fuel(pow, 19);
            assert(pow(10, 18) == 1_000_000_000_000_000_000);
            assert(pow(10, (i + 1) as nat) == 10 * pow(10, i as nat));
        }
        p = p * 10;
        i = i + 1;
    }
    p
}

impl Airdrop {
    /// What the account checks conclude for an airdrop of `amount`, in order:
    /// the receiving account's mint, owner and address; the faucet state's
    /// seeds and authority; the pool's seeds, that it holds at least `amount`
    /// and more than nothing, its owner and mint; then that the mint, the
    /// authority and the treasury are those the state names.
    pub open spec fn spec_validate(self, amount: u64) -> Result<Bumps, FaucetError> {
        let mint = self.allowed_token_mint.key;
        let state = self.faucet_state;
        match spec_check_created_associated(self.receiver_ata, self.signer, mint) {
            Err(e) => Err(FaucetError::Constraint(e)),
            Ok(_) => match spec_check_seeds(self.faucet_state_key@, spec_faucet_state_seeds(mint@, self.faucet_authority@), self.program_id@) {
                Err(e) => Err(FaucetError::Constraint(e)),
                Ok(fb) => if self.faucet_authority@ != state.authority@ {
                    Err(FaucetError::Constraint(ConstraintError::Raw))
                } else {
                    match spec_check_seeds(self.token_pool_acc.key@, spec_token_pool_seeds(mint@, self.faucet_state_key@), self.program_id@) {
                        Err(e) => Err(FaucetError::Constraint(e)),
                        Ok(pb) => if !(state.total_supply > 0 && state.total_supply >= amount) {
                            Err(FaucetError::Faucet(ErrorCode::InsufficientPoolBalance))
                        } else {
                            match spec_check_token_account(self.token_pool_acc, mint, self.faucet_state_key) {
                                Err(e) => Err(FaucetError::Constraint(e)),
                                Ok(_) => if mint@ != state.allowed_token@ {
                                    Err(FaucetError::Constraint(ConstraintError::Address))
                                } else if self.faucet_authority@ != state.authority@ {
                                    Err(FaucetError::Constraint(ConstraintError::Address))
                                } else if self.treasury_acc@ != state.treasury@ {
                                    Err(FaucetError::Constraint(ConstraintError::Address))
                                } else {
                                    Ok(Bumps { faucet_state: fb, token_pool: pb })
                                },
                            }
                        },
                    }
                },
            },
        }
    }

    /// Checks the accounts' constraints for an airdrop of `amount` and gives the
    /// bump seeds found.
    pub fn validate(&self, amount: u64) -> (r: Result<Bumps, FaucetError>)
        ensures
            r == self.spec_validate(amount),
    {
        let mint = self.allowed_token_mint.key;
        if let Err(e) = check_created_associated(&self.receiver_ata, &self.signer, &mint) {
            return Err(FaucetError::Constraint(e));
        }
        let fb = match check_seeds(&self.faucet_state_key, &faucet_state_seeds(&mint, &self.faucet_authority), &self.program_id) {
            Ok(b) => b,
            Err(e) => return Err(FaucetError::Constraint(e)),
        };
        if self.faucet_authority != self.faucet_state.authority {
            return Err(FaucetError::Constraint(ConstraintError::Raw));
        }
        let pb = match check_seeds(&self.token_pool_acc.key, &token_pool_seeds(&mint, &self.faucet_state_key), &self.program_id) {
            Ok(b) => b,
            Err(e) => return Err(FaucetError::Constraint(e)),
        };
        if !(self.faucet_state.total_supply > 0 && self.faucet_state.total_supply >= amount) {
            return Err(FaucetError::Faucet(ErrorCode::InsufficientPoolBalance));
        }
        if let Err(e) = check_token_account(&self.token_pool_acc, &mint, &self.faucet_state_key) {
            return Err(FaucetError::Constraint(e));
        }
        if mint != self.faucet_state.allowed_token {
            return Err(FaucetError::Constraint(ConstraintError::Address));
        }
        if self.faucet_authority != self.faucet_state.authority {
            return Err(FaucetError::Constraint(ConstraintError::Address));
        }
        if self.treasury_acc != self.faucet_state.treasury {
            return Err(FaucetError::Constraint(ConstraintError::Address));
        }
        Ok(Bumps { faucet_state: fb, token_pool: pb })
    }
}

/// The first step of an airdrop of `amount`: the price is computed; the
/// requester must hold at least that many lamports, else `InsufficientBalance`;
/// the step gives the system transfer of the price from the requester to the
/// treasury.
pub fn handler(ctx: &Airdrop, amount: u64) -> (r: Result<Instruction, FaucetError>)
    requires
        price_fits(amount, ctx.allowed_token_mint.decimals, ctx.faucet_state.price_per_token),
    ensures
        ({
            let price = lamports_required(amount, ctx.allowed_token_mint.decimals, ctx.faucet_state.price_per_token);
            match r {
                Ok(ix) => ctx.signer_lamports >= price && is_transfer(ix, ctx.signer, ctx.treasury_acc, price as u64),
                Err(e) => ctx.signer_lamports < price && e == FaucetError::Faucet(ErrorCode::InsufficientBalance),
            }
        }),
{
    let p = ten_to_the(ctx.allowed_token_mint.decimals);
    proof {
        lemma_pow_positive(10, ctx.allowed_token_mint.decimals as nat);
    }
    let lamports = (amount / p) * ctx.faucet_state.price_per_token;
    if ctx.signer_lamports < lamports {
        return Err(FaucetError::Faucet(ErrorCode::InsufficientBalance));
    }
    Ok(system_transfer(&ctx.signer, &ctx.treasury_acc, lamports))
}

/// The second step, once the payment has run: refused with `AirdropFailed`
/// when it failed; otherwise the transfer of `amount` tokens from the pool to
/// the receiving account, authorised by the faucet state, which signs with its
/// seeds and its bump seed `faucet_bump`.
pub fn after_payment(ctx: &Airdrop, faucet_bump: u8, amount: u64, paid: bool) -> (r: Result<TokenTransfer, FaucetError>)
    ensures
        !paid ==> r == Err::<TokenTransfer, FaucetError>(FaucetError::Faucet(ErrorCode::AirdropFailed)),
        paid ==> (r matches Ok(t) && {
            &&& t.from == ctx.token_pool_acc.key
            &&& t.to == ctx.receiver_ata.key
            &&& t.authority == ctx.faucet_state_key
            &&& t.amount == amount
            &&& t.signer_seeds.deep_view() == spec_faucet_signer_seeds(ctx.allowed_token_mint.key@, ctx.faucet_authority@, faucet_bump)
        }),
{
    if !paid {
        return Err(FaucetError::Faucet(ErrorCode::AirdropFailed));
    }
    Ok(TokenTransfer {
        from: ctx.token_pool_acc.key,
        to: ctx.receiver_ata.key,
        authority: ctx.faucet_state_key,
        amount,
        signer_seeds: faucet_signer_seeds(&ctx.allowed_token_mint.key, &ctx.faucet_authority, faucet_bump),
    })
}

/// The last step, once the token transfer has run: refused with
/// `AirdropFailed` when it failed, the state unchanged; otherwise the supply
/// shrinks by `amount` and nothing else changes.
pub fn complete(state: &mut FaucetState, amount: u64, transferred: bool) -> (r: Result<(), FaucetError>)
    requires
        transferred ==> old(state).total_supply >= amount,
    ensures
        transferred ==> r is Ok && *final(state) == airdropped(*old(state), amount),
        transferred ==> final(state).total_supply == old(state).total_supply - amount && *final(state) == (FaucetState { total_supply: final(state).total_supply, ..*old(state) }),
        !transferred ==> r == Err::<(), FaucetError>(FaucetError::Faucet(ErrorCode::AirdropFailed)) && *final(state) == *old(state),
{
    if !transferred {
        return Err(FaucetError::Faucet(ErrorCode::AirdropFailed));
    }
    state.total_supply = state.total_supply - amount;
    Ok(())
}

} // verus!
