//! What the faucet asks other programs to do: the plain form of a runtime
//! instruction, and the token program operations it signs for.
use vstd::prelude::*;

use crate::key::Pubkey;

verus! {

/// One account that an instruction reads or writes.
#[derive(Clone, Copy, Debug)]
pub struct AccountMeta {
    pub pubkey: Pubkey,
    pub is_signer: bool,
    pub is_writable: bool,
}

/// An instruction for another program: which program runs it, on which
/// accounts, with which data.
#[derive(Debug)]
pub struct Instruction {
    pub program_id: Pubkey,
    pub accounts: Vec<AccountMeta>,
    pub data: Vec<u8>,
}

/// The eight bytes of `x`, least significant first.
pub open spec fn le_bytes(x: u64) -> Seq<u8> {
    Seq::new(8, |i: int| ((x as int / vstd::arithmetic::power2::pow2((8 * i) as nat) as int) % 256) as u8)
}

/// The data of a system program transfer of `lamports`: the variant index 2
/// as four little-endian bytes, then the amount as eight.
pub open spec fn transfer_data(lamports: u64) -> Seq<u8> {
    seq![2u8, 0u8, 0u8, 0u8] + le_bytes(lamports)
}

/// The system program's key: 32 zero bytes.
pub open spec fn system_program_id() -> Seq<u8> {
    Seq::new(32, |i: int| 0u8)
}

/// The instruction that moves `lamports` from `from` to `to`.
pub open spec fn is_transfer(ix: Instruction, from: Pubkey, to: Pubkey, lamports: u64) -> bool {
    &&& ix.program_id@ == system_program_id()
    &&& ix.accounts@ == seq![
        AccountMeta { pubkey: from, is_signer: true, is_writable: true },
        AccountMeta { pubkey: to, is_signer: false, is_writable: true },
    ]
    &&& ix.data@ == transfer_data(lamports)
}

/// Builds the system program transfer of `lamports` from `from` to `to` with
/// `system_instruction::transfer` (solana-program). Its source builds the
/// instruction for the system program (key 32 zero bytes) with the accounts
/// `[from: signer, writable; to: writable]` and the bincode encoding of
/// `SystemInstruction::Transfer { lamports }`: variant index 2 as a
/// little-endian `u32`, then `lamports` as a little-endian `u64`.
#[verifier::external_body]
pub(crate) fn system_transfer(from: &Pubkey, to: &Pubkey, lamports: u64) -> (ix: Instruction)
    ensures
        is_transfer(ix, *from, *to, lamports),
{
    let f = anchor_lang::prelude::Pubkey::new_from_array(from.bytes);
    let t = anchor_lang::prelude::Pubkey::new_from_array(to.bytes);
    let ix = anchor_lang::solana_program::system_instruction::transfer(&f, &t, lamports);
    Instruction {
        program_id: Pubkey { bytes: ix.program_id.to_bytes() },
        accounts: ix.accounts.iter().map(|m| AccountMeta { pubkey: Pubkey { bytes: m.pubkey.to_bytes() }, is_signer: m.is_signer, is_writable: m.is_writable }).collect(),
        data: ix.data,
    }
}

/// A transfer of `amount` tokens from the token account `from` to the token
/// account `to`, authorised by `authority`; where `authority` is a program
/// address, `signer_seeds` are the seeds with which the faucet signs for it.
#[derive(Debug)]
pub struct TokenTransfer {
    pub from: Pubkey,
    pub to: Pubkey,
    pub authority: Pubkey,
    pub amount: u64,
    pub signer_seeds: Vec<Vec<u8>>,
}

/// Closing the token account `account`, its lamports going to `destination`,
/// authorised by `authority` with the faucet's `signer_seeds`.
#[derive(Debug)]
pub struct CloseTokenAccount {
    pub account: Pubkey,
    pub destination: Pubkey,
    pub authority: Pubkey,
    pub signer_seeds: Vec<Vec<u8>>,
}

/// Closing a program account once an instruction has succeeded: its lamports
/// go to `destination` and its data is cleared.
#[derive(Clone, Copy, Debug)]
pub struct CloseProgramAccount {
    pub account: Pubkey,
    pub destination: Pubkey,
}

} // verus!
