use anchor_lang::error::ErrorCode as Framework;
use anchor_lang::prelude::Pubkey as ChainKey;
use wild_faucet::address::{associated_token_account, associated_token_program_key, check_seeds, faucet_signer_seeds, faucet_state_seeds, is_associated_token_account, token_pool_seeds, token_program_key};
use wild_faucet::error::{ConstraintError, ErrorCode, FaucetError};
use wild_faucet::key::Pubkey;

fn key(n: u8) -> Pubkey {
    Pubkey::new_from_array([n; 32])
}

fn chain(k: &Pubkey) -> ChainKey {
    ChainKey::new_from_array(k.to_bytes())
}

#[test]
fn seeds_are_tag_mint_and_owner() {
    let mint = key(7);
    let authority = key(9);
    let s = faucet_state_seeds(&mint, &authority);
    assert_eq!(s, vec![b"faucet_state".to_vec(), vec![7u8; 32], vec![9u8; 32]]);
    let p = token_pool_seeds(&mint, &authority);
    assert_eq!(p, vec![b"token_pool".to_vec(), vec![7u8; 32], vec![9u8; 32]]);
    let g = faucet_signer_seeds(&mint, &authority, 254);
    assert_eq!(g, vec![b"faucet_state".to_vec(), vec![7u8; 32], vec![9u8; 32], vec![254u8]]);
}

#[test]
fn program_address_matches_the_runtime() {
    let program = key(3);
    let mint = key(7);
    let authority = key(9);
    let (pda, bump) = ChainKey::find_program_address(&[b"faucet_state", &[7u8; 32], &[9u8; 32]], &chain(&program));
    let pda = Pubkey::new_from_array(pda.to_bytes());
    let seeds = faucet_state_seeds(&mint, &authority);
    assert_eq!(check_seeds(&pda, &seeds, &program), Ok(bump));
    assert_eq!(check_seeds(&mint, &seeds, &program), Err(ConstraintError::Seeds));
}

#[test]
fn too_long_seeds_find_no_address() {
    let program = key(3);
    let seeds = vec![vec![1u8; 33]];
    assert_eq!(check_seeds(&key(1), &seeds, &program), Err(ConstraintError::Seeds));
}

#[test]
fn associated_token_address_matches_the_runtime() {
    let wallet = key(5);
    let mint = key(6);
    let ata = anchor_spl::associated_token::get_associated_token_address(&chain(&wallet), &chain(&mint));
    let ata = Pubkey::new_from_array(ata.to_bytes());
    assert!(is_associated_token_account(&ata, &wallet, &mint));
    assert!(!is_associated_token_account(&wallet, &wallet, &mint));
    assert!(!is_associated_token_account(&ata, &mint, &wallet));
}

#[test]
fn keys_compare_by_bytes() {
    let mut b = [4u8; 32];
    assert!(key(4) == Pubkey::new_from_array(b));
    b[31] = 5;
    assert!(key(4) != Pubkey::new_from_array(b));
    assert_eq!(Pubkey::zero().to_bytes(), [0u8; 32]);
}

#[test]
fn error_codes_and_messages() {
    let all = [
        (ErrorCode::InsufficientBalance, 6000, "Insufficient Balance in your account."),
        (ErrorCode::TransferFailed, 6001, "Transfer failed."),
        (ErrorCode::InvalidAuthority, 6002, "Not authorized to make changes. Invalid Authority."),
        (ErrorCode::InsufficientPoolBalance, 6003, "Insufficient pool balance"),
        (ErrorCode::InvalidTreasuryAccount, 6004, "Invalid Treasury account"),
        (ErrorCode::AirdropFailed, 6005, "Airdrop failed."),
        (ErrorCode::FaucetAccountNotInitialised, 6006, "Faucet Account not initialised"),
        (ErrorCode::FaucetAccountAlreadyInitialised, 6007, "Faucet Account already initialised"),
    ];
    for (e, c, m) in all.iter() {
        assert_eq!(e.code(), *c);
        assert_eq!(e.message(), *m);
        assert_eq!(FaucetError::Faucet(*e).code(), *c);
    }
}

#[test]
fn constraint_codes() {
    assert_eq!(ConstraintError::HasOne.code(), 2001);
    assert_eq!(ConstraintError::Raw.code(), 2003);
    assert_eq!(ConstraintError::Seeds.code(), 2006);
    assert_eq!(ConstraintError::Associated.code(), 2009);
    assert_eq!(ConstraintError::Close.code(), 2011);
    assert_eq!(ConstraintError::Address.code(), 2012);
    assert_eq!(ConstraintError::TokenMint.code(), 2014);
    assert_eq!(ConstraintError::TokenOwner.code(), 2015);
    assert_eq!(ConstraintError::NotAssociatedTokenAccount.code(), 3014);
    assert_eq!(FaucetError::Constraint(ConstraintError::Seeds).code(), 2006);
}

#[test]
fn constraint_codes_match_the_framework() {
    assert_eq!(ConstraintError::HasOne.code(), u32::from(Framework::ConstraintHasOne));
    assert_eq!(ConstraintError::Raw.code(), u32::from(Framework::ConstraintRaw));
    assert_eq!(ConstraintError::Seeds.code(), u32::from(Framework::ConstraintSeeds));
    assert_eq!(ConstraintError::Associated.code(), u32::from(Framework::ConstraintAssociated));
    assert_eq!(ConstraintError::Close.code(), u32::from(Framework::ConstraintClose));
    assert_eq!(ConstraintError::Address.code(), u32::from(Framework::ConstraintAddress));
    assert_eq!(ConstraintError::TokenMint.code(), u32::from(Framework::ConstraintTokenMint));
    assert_eq!(ConstraintError::TokenOwner.code(), u32::from(Framework::ConstraintTokenOwner));
    assert_eq!(ConstraintError::NotAssociatedTokenAccount.code(), u32::from(Framework::AccountNotAssociatedTokenAccount));
}

#[test]
fn program_keys_match_the_runtime() {
    assert_eq!(token_program_key().to_bytes(), anchor_spl::token::ID.to_bytes());
    assert_eq!(associated_token_program_key().to_bytes(), anchor_spl::associated_token::ID.to_bytes());
}

#[test]
fn associated_token_account_is_derived_like_the_runtime() {
    let wallet = key(21);
    let mint = key(22);
    let expected = anchor_spl::associated_token::get_associated_token_address(&chain(&wallet), &chain(&mint));
    let got = associated_token_account(&wallet, &mint).unwrap();
    assert_eq!(got.to_bytes(), expected.to_bytes());
}
