//! What the account checks of each instruction accept and refuse, stated
//! directly over the accounts: the program addresses, owners, mints and keys
//! that the faucet declares, and nothing else.
use vstd::prelude::*;
use vstd::arithmetic::power::{lemma_pow_positive, pow};

use crate::address::{associated_token_address, faucet_state_tag, program_address, token_pool_tag};
use crate::error::{ConstraintError, ErrorCode, FaucetError};
use crate::instructions::airdrop::Airdrop;
use crate::instructions::close_faucet::CloseFaucet;
use crate::instructions::fund::Fund;
use crate::faucet::spec_update;
use crate::instructions::airdrop::lamports_required;
use crate::instructions::initialize::{spec_initialize, Initialize};
use crate::instructions::refund::Refund;
use crate::key::Pubkey;
use crate::state::{Bumps, FaucetState, TokenAccount};

verus! {

/// `key` is the faucet state of `mint` and `authority` under `program_id`,
/// found with bump seed `bump`.
pub open spec fn is_faucet_state(key: Pubkey, mint: Pubkey, authority: Pubkey, program_id: Pubkey, bump: u8) -> bool {
    program_address(seq![faucet_state_tag(), mint@, authority@], program_id@) == Some((key@, bump))
}

/// `key` is the token pool of `mint` for the faucet state `faucet_state` under
/// `program_id`, found with bump seed `bump`.
pub open spec fn is_token_pool(key: Pubkey, mint: Pubkey, faucet_state: Pubkey, program_id: Pubkey, bump: u8) -> bool {
    program_address(seq![token_pool_tag(), mint@, faucet_state@], program_id@) == Some((key@, bump))
}

/// `acc` belongs to `owner` and holds `mint`.
pub open spec fn holds(acc: TokenAccount, owner: Pubkey, mint: Pubkey) -> bool {
    acc.owner@ == owner@ && acc.mint@ == mint@
}

/// `acc` is the associated token account of `wallet` for `mint`, and belongs
/// to `wallet`.
pub open spec fn is_wallet_account(acc: TokenAccount, wallet: Pubkey, mint: Pubkey) -> bool {
    acc.owner@ == wallet@ && associated_token_address(wallet@, mint@) == Some(acc.key@)
}

/// Set-up checks accept every well-placed account list: a faucet state and a
/// pool at their program addresses, the pool belonging to the state and
/// holding the mint; whatever the state holds and whatever the treasury is.
pub proof fn lemma_initialize_accepts(ctx: Initialize, fb: u8, pb: u8)
    requires
        is_faucet_state(ctx.faucet_state_key, ctx.allowed_token_mint, ctx.authority, ctx.program_id, fb),
        is_token_pool(ctx.token_pool_acc.key, ctx.allowed_token_mint, ctx.faucet_state_key, ctx.program_id, pb),
        holds(ctx.token_pool_acc, ctx.faucet_state_key, ctx.allowed_token_mint),
    ensures
        ctx.spec_validate() == Ok::<Bumps, FaucetError>(Bumps { faucet_state: fb, token_pool: pb }),
{
}

/// Set-up of a state that does not yet name the mint always succeeds, for every
/// authority, treasury and price, and records exactly them with an empty
/// supply; on a state that names the mint it is refused.
pub proof fn lemma_initialize_outcome(state: FaucetState, mint: Pubkey, authority: Pubkey, price_per_token: u64, treasury: Pubkey)
    ensures
        state.allowed_token@ != mint@ ==> spec_initialize(state, mint, authority, price_per_token, treasury) == Ok::<FaucetState, FaucetError>(FaucetState {
            authority,
            treasury,
            allowed_token: mint,
            price_per_token,
            total_supply: 0,
        }),
        state.allowed_token@ == mint@ ==> spec_initialize(state, mint, authority, price_per_token, treasury) == Err::<FaucetState, FaucetError>(
            FaucetError::Faucet(ErrorCode::FaucetAccountAlreadyInitialised),
        ),
{
}

/// An update of a state that names the mint replaces exactly the price and
/// the treasury; any other state refuses it.
pub proof fn lemma_update_outcome(state: FaucetState, mint: Pubkey, price_per_token: u64, treasury: Pubkey)
    ensures
        state.allowed_token@ == mint@ ==> spec_update(state, mint, price_per_token, treasury) == Ok::<FaucetState, FaucetError>(FaucetState {
            authority: state.authority,
            treasury,
            allowed_token: state.allowed_token,
            price_per_token,
            total_supply: state.total_supply,
        }),
        state.allowed_token@ != mint@ ==> spec_update(state, mint, price_per_token, treasury) == Err::<FaucetState, FaucetError>(
            FaucetError::Faucet(ErrorCode::FaucetAccountNotInitialised),
        ),
{
}

/// The price of an airdrop counts whole tokens only: `whole` tokens and any
/// fraction of a token below one cost `whole` times the price per token.
pub proof fn lemma_price_counts_whole_tokens(whole: nat, fraction: nat, decimals: u8, price_per_token: u64)
    requires
        fraction < pow(10, decimals as nat),
        whole * pow(10, decimals as nat) + fraction <= u64::MAX,
    ensures
        lamports_required((whole * pow(10, decimals as nat) + fraction) as u64, decimals, price_per_token) == whole * price_per_token,
{
    lemma_pow_positive(10, decimals as nat);
    let p = pow(10, decimals as nat);
    vstd::arithmetic::div_mod::lemma_fundamental_div_mod_converse(
        whole * p + fraction, p, whole as int, fraction as int,
    );
}

/// Funding checks accept every well-placed account list with a positive amount
/// the paying account covers, whatever the faucet's recorded supply (zero right
/// after set-up included) and whatever the pool holds.
pub proof fn lemma_fund_accepts(ctx: Fund, amount: u64, fb: u8, pb: u8)
    requires
        is_faucet_state(ctx.faucet_state_key, ctx.allowed_token_mint, ctx.authority, ctx.program_id, fb),
        ctx.faucet_state.authority@ == ctx.authority@,
        is_token_pool(ctx.token_pool_acc.key, ctx.allowed_token_mint, ctx.faucet_state_key, ctx.program_id, pb),
        holds(ctx.token_pool_acc, ctx.faucet_state_key, ctx.allowed_token_mint),
        is_wallet_account(ctx.token_ata, ctx.authority, ctx.allowed_token_mint),
        0 < amount <= ctx.token_ata.amount,
    ensures
        ctx.spec_validate(amount) == Ok::<Bumps, FaucetError>(Bumps { faucet_state: fb, token_pool: pb }),
{
}

/// With every account in place, funding is refused exactly for a zero amount
/// or one the paying account does not cover, with `InsufficientBalance`.
pub proof fn lemma_fund_refuses_uncovered(ctx: Fund, amount: u64, fb: u8, pb: u8)
    requires
        is_faucet_state(ctx.faucet_state_key, ctx.allowed_token_mint, ctx.authority, ctx.program_id, fb),
        ctx.faucet_state.authority@ == ctx.authority@,
        is_token_pool(ctx.token_pool_acc.key, ctx.allowed_token_mint, ctx.faucet_state_key, ctx.program_id, pb),
        holds(ctx.token_pool_acc, ctx.faucet_state_key, ctx.allowed_token_mint),
        is_wallet_account(ctx.token_ata, ctx.authority, ctx.allowed_token_mint),
        amount == 0 || amount > ctx.token_ata.amount,
    ensures
        ctx.spec_validate(amount) == Err::<Bumps, FaucetError>(FaucetError::Faucet(ErrorCode::InsufficientBalance)),
{
}

/// A faucet state at its program address whose recorded authority is not the
/// signer refuses funding, refunds and closing with a has-one violation.
pub proof fn lemma_other_authority_refused(fund: Fund, amount: u64, refund: Refund, close: CloseFaucet, fb: u8)
    requires
        is_faucet_state(fund.faucet_state_key, fund.allowed_token_mint, fund.authority, fund.program_id, fb),
        fund.faucet_state.authority@ != fund.authority@,
        is_faucet_state(refund.faucet_state_key, refund.allowed_token_mint, refund.authority, refund.program_id, fb),
        refund.faucet_state.authority@ != refund.authority@,
        is_faucet_state(close.faucet_state_key, close.allowed_token_mint, close.authority, close.program_id, fb),
        close.faucet_state.authority@ != close.authority@,
    ensures
        fund.spec_validate(amount) == Err::<Bumps, FaucetError>(FaucetError::Constraint(ConstraintError::HasOne)),
        refund.spec_validate() == Err::<Bumps, FaucetError>(FaucetError::Constraint(ConstraintError::HasOne)),
        close.spec_validate() == Err::<Bumps, FaucetError>(FaucetError::Constraint(ConstraintError::HasOne)),
{
}

/// Refund checks accept every well-placed account list, whatever the pool and
/// the authority's own token account hold.
pub proof fn lemma_refund_accepts(ctx: Refund, fb: u8, pb: u8)
    requires
        is_faucet_state(ctx.faucet_state_key, ctx.allowed_token_mint, ctx.authority, ctx.program_id, fb),
        ctx.faucet_state.authority@ == ctx.authority@,
        is_token_pool(ctx.token_pool_acc.key, ctx.allowed_token_mint, ctx.faucet_state_key, ctx.program_id, pb),
        holds(ctx.token_pool_acc, ctx.faucet_state_key, ctx.allowed_token_mint),
        is_wallet_account(ctx.receiver_ata, ctx.authority, ctx.allowed_token_mint),
    ensures
        ctx.spec_validate() == Ok::<Bumps, FaucetError>(Bumps { faucet_state: fb, token_pool: pb }),
{
}

/// Closing checks accept every well-placed account list whose faucet state is
/// not the authority itself, whatever the pool, the state's supply and the
/// authority's own token account hold.
pub proof fn lemma_close_accepts(ctx: CloseFaucet, fb: u8, pb: u8)
    requires
        is_faucet_state(ctx.faucet_state_key, ctx.allowed_token_mint, ctx.authority, ctx.program_id, fb),
        ctx.faucet_state.authority@ == ctx.authority@,
        ctx.faucet_state_key@ != ctx.authority@,
        is_token_pool(ctx.token_pool_acc.key, ctx.allowed_token_mint, ctx.faucet_state_key, ctx.program_id, pb),
        holds(ctx.token_pool_acc, ctx.faucet_state_key, ctx.allowed_token_mint),
        is_wallet_account(ctx.token_ata, ctx.authority, ctx.allowed_token_mint),
    ensures
        ctx.spec_validate() == Ok::<Bumps, FaucetError>(Bumps { faucet_state: fb, token_pool: pb }),
{
}

/// The airdrop's account list is in place: the receiving account is the
/// signer's associated token account for the mint, the faucet state and the
/// pool are at their program addresses, the pool belongs to the state and
/// holds the mint, and the mint, the authority and the treasury are the
/// state's.
pub open spec fn airdrop_accounts_in_place(ctx: Airdrop, fb: u8, pb: u8) -> bool {
    let mint = ctx.allowed_token_mint.key;
    let state = ctx.faucet_state;
    &&& holds(ctx.receiver_ata, ctx.signer, mint)
    &&& associated_token_address(ctx.signer@, mint@) == Some(ctx.receiver_ata.key@)
    &&& is_faucet_state(ctx.faucet_state_key, mint, ctx.faucet_authority, ctx.program_id, fb)
    &&& is_token_pool(ctx.token_pool_acc.key, mint, ctx.faucet_state_key, ctx.program_id, pb)
    &&& holds(ctx.token_pool_acc, ctx.faucet_state_key, mint)
    &&& ctx.faucet_authority@ == state.authority@
    &&& mint@ == state.allowed_token@
    &&& ctx.treasury_acc@ == state.treasury@
}

/// Airdrop checks accept every account list in place for any amount the
/// non-empty recorded supply covers, whatever the receiving account, the pool
/// and the requester's lamports hold.
pub proof fn lemma_airdrop_accepts(ctx: Airdrop, amount: u64, fb: u8, pb: u8)
    requires
        airdrop_accounts_in_place(ctx, fb, pb),
        0 < ctx.faucet_state.total_supply,
        amount <= ctx.faucet_state.total_supply,
    ensures
        ctx.spec_validate(amount) == Ok::<Bumps, FaucetError>(Bumps { faucet_state: fb, token_pool: pb }),
{
}

/// With every account in place, an airdrop is refused exactly when the
/// recorded supply is empty or below the amount, with `InsufficientPoolBalance`.
pub proof fn lemma_airdrop_refuses_uncovered(ctx: Airdrop, amount: u64, fb: u8, pb: u8)
    requires
        airdrop_accounts_in_place(ctx, fb, pb),
        ctx.faucet_state.total_supply == 0 || amount > ctx.faucet_state.total_supply,
    ensures
        ctx.spec_validate(amount) == Err::<Bumps, FaucetError>(FaucetError::Faucet(ErrorCode::InsufficientPoolBalance)),
{
}

/// An airdrop whose treasury is not the state's is refused with an address
/// violation once everything else is in place.
pub proof fn lemma_airdrop_refuses_other_treasury(ctx: Airdrop, amount: u64, fb: u8, pb: u8)
    requires
        airdrop_accounts_in_place(Airdrop { treasury_acc: ctx.faucet_state.treasury, ..ctx }, fb, pb),
        ctx.treasury_acc@ != ctx.faucet_state.treasury@,
        0 < ctx.faucet_state.total_supply,
        amount <= ctx.faucet_state.total_supply,
    ensures
        ctx.spec_validate(amount) == Err::<Bumps, FaucetError>(FaucetError::Constraint(ConstraintError::Address)),
{
}

/// Set-up checks accept only well-placed account lists, and report the bump
/// seeds of the two program addresses.
pub proof fn lemma_initialize_accepts_only_in_place(ctx: Initialize)
    requires
        ctx.spec_validate() is Ok,
    ensures
        ({
            let b = ctx.spec_validate()->Ok_0;
            &&& is_faucet_state(ctx.faucet_state_key, ctx.allowed_token_mint, ctx.authority, ctx.program_id, b.faucet_state)
            &&& is_token_pool(ctx.token_pool_acc.key, ctx.allowed_token_mint, ctx.faucet_state_key, ctx.program_id, b.token_pool)
            &&& holds(ctx.token_pool_acc, ctx.faucet_state_key, ctx.allowed_token_mint)
        }),
{
}

/// Funding checks accept only well-placed account lists with a positive amount
/// that the paying account covers.
pub proof fn lemma_fund_accepts_only_in_place(ctx: Fund, amount: u64)
    requires
        ctx.spec_validate(amount) is Ok,
    ensures
        ({
            let b = ctx.spec_validate(amount)->Ok_0;
            &&& is_faucet_state(ctx.faucet_state_key, ctx.allowed_token_mint, ctx.authority, ctx.program_id, b.faucet_state)
            &&& ctx.faucet_state.authority@ == ctx.authority@
            &&& is_token_pool(ctx.token_pool_acc.key, ctx.allowed_token_mint, ctx.faucet_state_key, ctx.program_id, b.token_pool)
            &&& holds(ctx.token_pool_acc, ctx.faucet_state_key, ctx.allowed_token_mint)
            &&& is_wallet_account(ctx.token_ata, ctx.authority, ctx.allowed_token_mint)
            &&& 0 < amount <= ctx.token_ata.amount
        }),
{
}

/// Refund checks accept only well-placed account lists.
pub proof fn lemma_refund_accepts_only_in_place(ctx: Refund)
    requires
        ctx.spec_validate() is Ok,
    ensures
        ({
            let b = ctx.spec_validate()->Ok_0;
            &&& is_faucet_state(ctx.faucet_state_key, ctx.allowed_token_mint, ctx.authority, ctx.program_id, b.faucet_state)
            &&& ctx.faucet_state.authority@ == ctx.authority@
            &&& is_token_pool(ctx.token_pool_acc.key, ctx.allowed_token_mint, ctx.faucet_state_key, ctx.program_id, b.token_pool)
            &&& holds(ctx.token_pool_acc, ctx.faucet_state_key, ctx.allowed_token_mint)
            &&& is_wallet_account(ctx.receiver_ata, ctx.authority, ctx.allowed_token_mint)
        }),
{
}

/// Closing checks accept only well-placed account lists whose faucet state is
/// not the authority.
pub proof fn lemma_close_accepts_only_in_place(ctx: CloseFaucet)
    requires
        ctx.spec_validate() is Ok,
    ensures
        ({
            let b = ctx.spec_validate()->Ok_0;
            &&& is_faucet_state(ctx.faucet_state_key, ctx.allowed_token_mint, ctx.authority, ctx.program_id, b.faucet_state)
            &&& ctx.faucet_state.authority@ == ctx.authority@
            &&& ctx.faucet_state_key@ != ctx.authority@
            &&& is_token_pool(ctx.token_pool_acc.key, ctx.allowed_token_mint, ctx.faucet_state_key, ctx.program_id, b.token_pool)
            &&& holds(ctx.token_pool_acc, ctx.faucet_state_key, ctx.allowed_token_mint)
            &&& is_wallet_account(ctx.token_ata, ctx.authority, ctx.allowed_token_mint)
        }),
{
}

/// Airdrop checks accept only account lists in place, with a non-empty
/// recorded supply covering the amount.
pub proof fn lemma_airdrop_accepts_only_in_place(ctx: Airdrop, amount: u64)
    requires
        ctx.spec_validate(amount) is Ok,
    ensures
        airdrop_accounts_in_place(ctx, ctx.spec_validate(amount)->Ok_0.faucet_state, ctx.spec_validate(amount)->Ok_0.token_pool),
        0 < ctx.faucet_state.total_supply,
        amount <= ctx.faucet_state.total_supply,
{
}

} // verus!
