use anchor_lang::prelude::Pubkey as ChainKey;
use wild_faucet::error::{ConstraintError, ErrorCode, FaucetError};
use wild_faucet::faucet::{close_faucet, fund_faucet, initialize_faucet, refund_balance, request_airdrop, update_faucet};
use wild_faucet::instructions::airdrop::{self, Airdrop};
use wild_faucet::instructions::close_faucet::{self as closing, CloseFaucet};
use wild_faucet::instructions::fund::{self, Fund};
use wild_faucet::instructions::initialize::{self, Initialize};
use wild_faucet::instructions::refund::{self, Refund};
use wild_faucet::instruction::CloseProgramAccount;
use wild_faucet::key::Pubkey;
use wild_faucet::state::{FaucetState, Mint, TokenAccount};

fn key(n: u8) -> Pubkey {
    Pubkey::new_from_array([n; 32])
}

fn chain(k: &Pubkey) -> ChainKey {
    ChainKey::new_from_array(k.to_bytes())
}

fn plain(k: ChainKey) -> Pubkey {
    Pubkey::new_from_array(k.to_bytes())
}

const PROGRAM: u8 = 3;
const MINT: u8 = 7;
const AUTHORITY: u8 = 9;
const TREASURY: u8 = 11;
const REQUESTER: u8 = 13;

struct World {
    program: Pubkey,
    mint: Pubkey,
    authority: Pubkey,
    treasury: Pubkey,
    requester: Pubkey,
    faucet: Pubkey,
    faucet_bump: u8,
    pool: Pubkey,
    pool_bump: u8,
    authority_ata: Pubkey,
    requester_ata: Pubkey,
}

fn world() -> World {
    let program = key(PROGRAM);
    let mint = key(MINT);
    let authority = key(AUTHORITY);
    let (faucet, faucet_bump) = ChainKey::find_program_address(&[b"faucet_state", &mint.to_bytes(), &authority.to_bytes()], &chain(&program));
    let (pool, pool_bump) = ChainKey::find_program_address(&[b"token_pool", &mint.to_bytes(), &faucet.to_bytes()], &chain(&program));
    let requester = key(REQUESTER);
    World {
        program,
        mint,
        authority,
        treasury: key(TREASURY),
        requester,
        faucet: plain(faucet),
        faucet_bump,
        pool: plain(pool),
        pool_bump,
        authority_ata: plain(anchor_spl::associated_token::get_associated_token_address(&chain(&authority), &chain(&mint))),
        requester_ata: plain(anchor_spl::associated_token::get_associated_token_address(&chain(&requester), &chain(&mint))),
    }
}

fn live_state(w: &World, supply: u64) -> FaucetState {
    FaucetState { authority: w.authority, treasury: w.treasury, allowed_token: w.mint, price_per_token: 100, total_supply: supply }
}

fn pool(w: &World, amount: u64) -> TokenAccount {
    TokenAccount { key: w.pool, mint: w.mint, owner: w.faucet, amount }
}

fn initialize_ctx(w: &World) -> Initialize {
    Initialize {
        program_id: w.program,
        faucet_state_key: w.faucet,
        faucet_state: FaucetState::zeroed(),
        token_pool_acc: pool(w, 0),
        treasury_acc: w.treasury,
        allowed_token_mint: w.mint,
        authority: w.authority,
    }
}

fn fund_ctx(w: &World, supply: u64, ata_amount: u64) -> Fund {
    Fund {
        program_id: w.program,
        faucet_state_key: w.faucet,
        faucet_state: live_state(w, supply),
        token_pool_acc: pool(w, supply),
        token_ata: TokenAccount { key: w.authority_ata, mint: w.mint, owner: w.authority, amount: ata_amount },
        allowed_token_mint: w.mint,
        authority: w.authority,
    }
}

fn airdrop_ctx(w: &World, supply: u64, lamports: u64) -> Airdrop {
    Airdrop {
        program_id: w.program,
        faucet_state_key: w.faucet,
        faucet_state: live_state(w, supply),
        token_pool_acc: pool(w, supply),
        allowed_token_mint: Mint { key: w.mint, decimals: 9 },
        faucet_authority: w.authority,
        treasury_acc: w.treasury,
        receiver_ata: TokenAccount { key: w.requester_ata, mint: w.mint, owner: w.requester, amount: 0 },
        signer: w.requester,
        signer_lamports: lamports,
    }
}

fn refund_ctx(w: &World, supply: u64) -> Refund {
    Refund {
        program_id: w.program,
        faucet_state_key: w.faucet,
        faucet_state: live_state(w, supply),
        token_pool_acc: pool(w, supply),
        receiver_ata: TokenAccount { key: w.authority_ata, mint: w.mint, owner: w.authority, amount: 0 },
        allowed_token_mint: w.mint,
        authority: w.authority,
    }
}

fn close_ctx(w: &World) -> CloseFaucet {
    CloseFaucet {
        program_id: w.program,
        faucet_state_key: w.faucet,
        faucet_state: live_state(w, 0),
        token_pool_acc: pool(w, 0),
        token_ata: TokenAccount { key: w.authority_ata, mint: w.mint, owner: w.authority, amount: 0 },
        allowed_token_mint: w.mint,
        authority: w.authority,
    }
}

fn faucet_err(e: ErrorCode) -> FaucetError {
    FaucetError::Faucet(e)
}

fn constraint(e: ConstraintError) -> FaucetError {
    FaucetError::Constraint(e)
}

fn signer_seeds(w: &World) -> Vec<Vec<u8>> {
    vec![b"faucet_state".to_vec(), w.mint.to_bytes().to_vec(), w.authority.to_bytes().to_vec(), vec![w.faucet_bump]]
}

// ---- set-up and update ----

#[test]
fn initialize_sets_up_a_fresh_faucet() {
    let w = world();
    let mut ctx = initialize_ctx(&w);
    let b = ctx.validate().unwrap();
    assert_eq!(b.faucet_state, w.faucet_bump);
    assert_eq!(b.token_pool, w.pool_bump);
    assert_eq!(initialize_faucet(&mut ctx, 100), Ok(()));
    assert!(ctx.faucet_state.allowed_token == w.mint);
    assert!(ctx.faucet_state.authority == w.authority);
    assert!(ctx.faucet_state.treasury == w.treasury);
    assert_eq!(ctx.faucet_state.price_per_token, 100);
    assert_eq!(ctx.faucet_state.total_supply, 0);
}

#[test]
fn initialize_twice_is_refused() {
    let w = world();
    let mut ctx = initialize_ctx(&w);
    assert_eq!(initialize_faucet(&mut ctx, 100), Ok(()));
    ctx.faucet_state.total_supply = 42;
    assert_eq!(initialize_faucet(&mut ctx, 5), Err(faucet_err(ErrorCode::FaucetAccountAlreadyInitialised)));
    assert_eq!(ctx.faucet_state.price_per_token, 100);
    assert_eq!(ctx.faucet_state.total_supply, 42);
}

#[test]
fn initialize_handler_alone() {
    let w = world();
    let mut ctx = initialize_ctx(&w);
    assert_eq!(initialize::handler(&mut ctx, 7), Ok(()));
    assert_eq!(initialize::handler(&mut ctx, 7), Err(faucet_err(ErrorCode::FaucetAccountAlreadyInitialised)));
}

#[test]
fn initialize_checks_its_accounts() {
    let w = world();
    let mut ctx = initialize_ctx(&w);
    ctx.faucet_state_key = key(1);
    assert_eq!(initialize_faucet(&mut ctx, 1), Err(constraint(ConstraintError::Seeds)));
    let mut ctx = initialize_ctx(&w);
    ctx.token_pool_acc.key = key(1);
    assert_eq!(ctx.validate().unwrap_err(), constraint(ConstraintError::Seeds));
    let mut ctx = initialize_ctx(&w);
    ctx.token_pool_acc.mint = key(1);
    assert_eq!(ctx.validate().unwrap_err(), constraint(ConstraintError::TokenMint));
    let mut ctx = initialize_ctx(&w);
    ctx.token_pool_acc.owner = key(1);
    assert_eq!(ctx.validate().unwrap_err(), constraint(ConstraintError::TokenOwner));
    let mut ctx = initialize_ctx(&w);
    ctx.authority = key(1);
    assert_eq!(ctx.validate().unwrap_err(), constraint(ConstraintError::Seeds));
}

#[test]
fn update_needs_a_set_up_faucet() {
    let w = world();
    let mut ctx = initialize_ctx(&w);
    assert_eq!(update_faucet(&mut ctx, 5), Err(faucet_err(ErrorCode::FaucetAccountNotInitialised)));
    assert_eq!(ctx.faucet_state.price_per_token, 0);
}

#[test]
fn update_replaces_price_and_treasury() {
    let w = world();
    let mut ctx = initialize_ctx(&w);
    assert_eq!(initialize_faucet(&mut ctx, 100), Ok(()));
    ctx.faucet_state.total_supply = 30;
    ctx.treasury_acc = key(21);
    assert_eq!(update_faucet(&mut ctx, 250), Ok(()));
    assert_eq!(ctx.faucet_state.price_per_token, 250);
    assert!(ctx.faucet_state.treasury == key(21));
    assert!(ctx.faucet_state.authority == w.authority);
    assert!(ctx.faucet_state.allowed_token == w.mint);
    assert_eq!(ctx.faucet_state.total_supply, 30);
}

// ---- funding ----

#[test]
fn fund_transfers_into_the_pool() {
    let w = world();
    let ctx = fund_ctx(&w, 10, 500);
    let t = fund_faucet(&ctx, 200).unwrap();
    assert!(t.from == w.authority_ata);
    assert!(t.to == w.pool);
    assert!(t.authority == w.authority);
    assert_eq!(t.amount, 200);
    assert_eq!(t.signer_seeds, signer_seeds(&w));
    let mut s = ctx.faucet_state;
    assert_eq!(fund::complete(&mut s, 200, true), Ok(()));
    assert_eq!(s.total_supply, 210);
}

#[test]
fn fund_failed_transfer_is_refused() {
    let w = world();
    let mut s = live_state(&w, 10);
    assert_eq!(fund::complete(&mut s, 200, false), Err(faucet_err(ErrorCode::TransferFailed)));
    assert_eq!(s.total_supply, 10);
}

#[test]
fn fund_checks_amount_and_balance() {
    let w = world();
    let ctx = fund_ctx(&w, 10, 500);
    assert_eq!(fund_faucet(&ctx, 0).unwrap_err(), faucet_err(ErrorCode::InsufficientBalance));
    assert_eq!(fund_faucet(&ctx, 501).unwrap_err(), faucet_err(ErrorCode::InsufficientBalance));
    assert!(fund_faucet(&ctx, 500).is_ok());
}

#[test]
fn fund_checks_its_accounts() {
    let w = world();
    let mut ctx = fund_ctx(&w, 10, 500);
    ctx.faucet_state.authority = key(1);
    assert_eq!(fund_faucet(&ctx, 5).unwrap_err(), constraint(ConstraintError::HasOne));
    let mut ctx = fund_ctx(&w, 10, 500);
    ctx.authority = key(1);
    assert_eq!(fund_faucet(&ctx, 5).unwrap_err(), constraint(ConstraintError::Seeds));
    let mut ctx = fund_ctx(&w, 10, 500);
    ctx.token_pool_acc.owner = key(1);
    assert_eq!(fund_faucet(&ctx, 5).unwrap_err(), constraint(ConstraintError::TokenOwner));
    let mut ctx = fund_ctx(&w, 10, 500);
    ctx.token_pool_acc.mint = key(1);
    assert_eq!(fund_faucet(&ctx, 5).unwrap_err(), constraint(ConstraintError::TokenMint));
    let mut ctx = fund_ctx(&w, 10, 500);
    ctx.token_ata.owner = key(1);
    assert_eq!(fund_faucet(&ctx, 5).unwrap_err(), constraint(ConstraintError::TokenOwner));
    let mut ctx = fund_ctx(&w, 10, 500);
    ctx.token_ata.key = key(1);
    assert_eq!(fund_faucet(&ctx, 5).unwrap_err(), constraint(ConstraintError::Associated));
    let mut ctx = fund_ctx(&w, 10, 500);
    ctx.token_pool_acc.key = key(1);
    assert_eq!(fund_faucet(&ctx, 5).unwrap_err(), constraint(ConstraintError::Seeds));
}

// ---- airdrops ----

#[test]
fn airdrop_pays_the_treasury_then_sends_tokens() {
    let w = world();
    let ctx = airdrop_ctx(&w, 10_000_000_000, 1_000);
    let (ix, b) = request_airdrop(&ctx, 5_000_000_000).unwrap();
    assert_eq!(b.faucet_state, w.faucet_bump);
    assert_eq!(b.token_pool, w.pool_bump);
    assert_eq!(ix.program_id.to_bytes(), [0u8; 32]);
    assert_eq!(ix.accounts.len(), 2);
    assert!(ix.accounts[0].pubkey == w.requester && ix.accounts[0].is_signer && ix.accounts[0].is_writable);
    assert!(ix.accounts[1].pubkey == w.treasury && !ix.accounts[1].is_signer && ix.accounts[1].is_writable);
    let mut data = vec![2u8, 0, 0, 0];
    data.extend_from_slice(&500u64.to_le_bytes());
    assert_eq!(ix.data, data);
    let expected = anchor_lang::solana_program::system_instruction::transfer(&chain(&w.requester), &chain(&w.treasury), 500);
    assert_eq!(ix.data, expected.data);
    let t = airdrop::after_payment(&ctx, b.faucet_state, 5_000_000_000, true).unwrap();
    assert!(t.from == w.pool);
    assert!(t.to == w.requester_ata);
    assert!(t.authority == w.faucet);
    assert_eq!(t.amount, 5_000_000_000);
    assert_eq!(t.signer_seeds, signer_seeds(&w));
    let mut s = ctx.faucet_state;
    assert_eq!(airdrop::complete(&mut s, 5_000_000_000, true), Ok(()));
    assert_eq!(s.total_supply, 5_000_000_000);
}

#[test]
fn airdrop_of_a_fraction_is_free() {
    let w = world();
    let ctx = airdrop_ctx(&w, 10_000_000_000, 0);
    let (ix, _) = request_airdrop(&ctx, 999_999_999).unwrap();
    assert_eq!(ix.data, vec![2u8, 0, 0, 0, 0, 0, 0, 0, 0, 0, 0, 0]);
}

#[test]
fn airdrop_needs_enough_lamports() {
    let w = world();
    let ctx = airdrop_ctx(&w, 10_000_000_000, 499);
    assert_eq!(request_airdrop(&ctx, 5_000_000_000).unwrap_err(), faucet_err(ErrorCode::InsufficientBalance));
    assert_eq!(airdrop::handler(&ctx, 5_000_000_000).unwrap_err(), faucet_err(ErrorCode::InsufficientBalance));
    let ctx = airdrop_ctx(&w, 10_000_000_000, 500);
    assert!(request_airdrop(&ctx, 5_000_000_000).is_ok());
}

#[test]
fn airdrop_needs_enough_in_the_pool() {
    let w = world();
    let ctx = airdrop_ctx(&w, 0, 1_000);
    assert_eq!(request_airdrop(&ctx, 0).unwrap_err(), faucet_err(ErrorCode::InsufficientPoolBalance));
    let ctx = airdrop_ctx(&w, 10, 1_000);
    assert_eq!(request_airdrop(&ctx, 11).unwrap_err(), faucet_err(ErrorCode::InsufficientPoolBalance));
    assert!(request_airdrop(&ctx, 10).is_ok());
}

#[test]
fn airdrop_failures_after_payment() {
    let w = world();
    let ctx = airdrop_ctx(&w, 10, 1_000);
    assert_eq!(airdrop::after_payment(&ctx, w.faucet_bump, 5, false).unwrap_err(), faucet_err(ErrorCode::AirdropFailed));
    let mut s = ctx.faucet_state;
    assert_eq!(airdrop::complete(&mut s, 5, false), Err(faucet_err(ErrorCode::AirdropFailed)));
    assert_eq!(s.total_supply, 10);
}

#[test]
fn airdrop_checks_its_accounts() {
    let w = world();
    let mut ctx = airdrop_ctx(&w, 10, 1_000);
    ctx.receiver_ata.mint = key(1);
    assert_eq!(request_airdrop(&ctx, 5).unwrap_err(), constraint(ConstraintError::TokenMint));
    let mut ctx = airdrop_ctx(&w, 10, 1_000);
    ctx.receiver_ata.owner = key(1);
    assert_eq!(request_airdrop(&ctx, 5).unwrap_err(), constraint(ConstraintError::TokenOwner));
    let mut ctx = airdrop_ctx(&w, 10, 1_000);
    ctx.receiver_ata.key = key(1);
    assert_eq!(request_airdrop(&ctx, 5).unwrap_err(), constraint(ConstraintError::NotAssociatedTokenAccount));
    let mut ctx = airdrop_ctx(&w, 10, 1_000);
    ctx.faucet_state.authority = key(1);
    assert_eq!(request_airdrop(&ctx, 5).unwrap_err(), constraint(ConstraintError::Raw));
    let mut ctx = airdrop_ctx(&w, 10, 1_000);
    ctx.faucet_authority = key(1);
    assert_eq!(request_airdrop(&ctx, 5).unwrap_err(), constraint(ConstraintError::Seeds));
    let mut ctx = airdrop_ctx(&w, 10, 1_000);
    ctx.token_pool_acc.owner = key(1);
    assert_eq!(request_airdrop(&ctx, 5).unwrap_err(), constraint(ConstraintError::TokenOwner));
    let mut ctx = airdrop_ctx(&w, 10, 1_000);
    ctx.token_pool_acc.mint = key(1);
    assert_eq!(request_airdrop(&ctx, 5).unwrap_err(), constraint(ConstraintError::TokenMint));
    let mut ctx = airdrop_ctx(&w, 10, 1_000);
    ctx.faucet_state.allowed_token = key(1);
    assert_eq!(request_airdrop(&ctx, 5).unwrap_err(), constraint(ConstraintError::Address));
    let mut ctx = airdrop_ctx(&w, 10, 1_000);
    ctx.treasury_acc = key(1);
    assert_eq!(request_airdrop(&ctx, 5).unwrap_err(), constraint(ConstraintError::Address));
}

// ---- refunds and closing ----

#[test]
fn refund_returns_the_whole_pool() {
    let w = world();
    let ctx = refund_ctx(&w, 77);
    let t = refund_balance(&ctx).unwrap();
    assert!(t.from == w.pool);
    assert!(t.to == w.authority_ata);
    assert!(t.authority == w.faucet);
    assert_eq!(t.amount, 77);
    assert_eq!(t.signer_seeds, signer_seeds(&w));
    let mut s = ctx.faucet_state;
    assert_eq!(refund::complete(&mut s, true), Ok(()));
    assert_eq!(s.total_supply, 0);
    let mut s = ctx.faucet_state;
    assert_eq!(refund::complete(&mut s, false), Err(faucet_err(ErrorCode::AirdropFailed)));
    assert_eq!(s.total_supply, 77);
}

#[test]
fn refund_checks_its_accounts() {
    let w = world();
    let mut ctx = refund_ctx(&w, 77);
    ctx.faucet_state.authority = key(1);
    assert_eq!(refund_balance(&ctx).unwrap_err(), constraint(ConstraintError::HasOne));
    let mut ctx = refund_ctx(&w, 77);
    ctx.receiver_ata.owner = key(1);
    assert_eq!(refund_balance(&ctx).unwrap_err(), constraint(ConstraintError::TokenOwner));
    let mut ctx = refund_ctx(&w, 77);
    ctx.receiver_ata.key = key(1);
    assert_eq!(refund_balance(&ctx).unwrap_err(), constraint(ConstraintError::Associated));
}

#[test]
fn close_closes_pool_then_state() {
    let w = world();
    let ctx = close_ctx(&w);
    let c = close_faucet(&ctx).unwrap();
    assert!(c.account == w.pool);
    assert!(c.destination == w.authority);
    assert!(c.authority == w.faucet);
    assert_eq!(c.signer_seeds, signer_seeds(&w));
    let done: Result<CloseProgramAccount, String> = closing::complete(&ctx, Ok(()));
    let done = done.unwrap();
    assert!(done.account == w.faucet && done.destination == w.authority);
    let failed: Result<CloseProgramAccount, String> = closing::complete(&ctx, Err("token program refused".to_string()));
    assert_eq!(failed.unwrap_err(), "token program refused");
}

#[test]
fn close_checks_its_accounts() {
    let w = world();
    let mut ctx = close_ctx(&w);
    ctx.faucet_state.authority = key(1);
    assert_eq!(close_faucet(&ctx).unwrap_err(), constraint(ConstraintError::HasOne));
    let mut ctx = close_ctx(&w);
    ctx.token_ata.key = key(1);
    assert_eq!(close_faucet(&ctx).unwrap_err(), constraint(ConstraintError::Associated));
    let mut ctx = close_ctx(&w);
    ctx.program_id = key(1);
    assert_eq!(close_faucet(&ctx).unwrap_err(), constraint(ConstraintError::Seeds));
}

// ---- properties on concrete values ----

#[test]
fn fund_then_airdrop_restores_the_supply() {
    let w = world();
    let before = live_state(&w, 1_234);
    let mut s = before;
    fund::complete(&mut s, 66, true).unwrap();
    airdrop::complete(&mut s, 66, true).unwrap();
    assert_eq!(s.total_supply, before.total_supply);
    assert!(s.authority == before.authority && s.treasury == before.treasury && s.allowed_token == before.allowed_token);
    assert_eq!(s.price_per_token, before.price_per_token);
}

#[test]
fn validated_airdrop_names_the_state_treasury() {
    let w = world();
    let ctx = airdrop_ctx(&w, 10, 1_000);
    assert!(ctx.validate(10).is_ok());
    assert!(ctx.treasury_acc == ctx.faucet_state.treasury);
    assert!(ctx.allowed_token_mint.key == ctx.faucet_state.allowed_token);
}

#[test]
fn set_up_stays_refused_after_other_instructions() {
    let w = world();
    let mut init = initialize_ctx(&w);
    assert_eq!(initialize_faucet(&mut init, 100), Ok(()));
    let mut s = init.faucet_state;
    fund::complete(&mut s, 50, true).unwrap();
    airdrop::complete(&mut s, 20, true).unwrap();
    refund::complete(&mut s, true).unwrap();
    init.faucet_state = s;
    init.treasury_acc = key(30);
    assert_eq!(update_faucet(&mut init, 7), Ok(()));
    let before = init.faucet_state;
    init.authority = w.authority;
    assert_eq!(initialize_faucet(&mut init, 9), Err(faucet_err(ErrorCode::FaucetAccountAlreadyInitialised)));
    assert_eq!(init.faucet_state.price_per_token, before.price_per_token);
    assert!(init.faucet_state.treasury == before.treasury);
    assert_eq!(init.faucet_state.total_supply, before.total_supply);
}

#[test]
fn airdrop_after_refund_is_refused() {
    let w = world();
    let mut s = live_state(&w, 40);
    refund::complete(&mut s, true).unwrap();
    let mut ctx = airdrop_ctx(&w, 0, 1_000_000);
    ctx.faucet_state = s;
    for amount in [0u64, 1, 40] {
        assert_eq!(request_airdrop(&ctx, amount).unwrap_err(), faucet_err(ErrorCode::InsufficientPoolBalance));
    }
}

#[test]
fn supply_stays_within_pool() {
    let w = world();
    let mut ctx = airdrop_ctx(&w, 30, 1_000_000);
    ctx.token_pool_acc.amount = 35;
    let (_, b) = request_airdrop(&ctx, 30).unwrap();
    let t = airdrop::after_payment(&ctx, b.faucet_state, 30, true).unwrap();
    assert!(t.amount <= ctx.token_pool_acc.amount);
    let mut s = ctx.faucet_state;
    airdrop::complete(&mut s, 30, true).unwrap();
    assert!(s.total_supply <= ctx.token_pool_acc.amount - t.amount);
}
