//! Program derived addresses: the seeds the faucet uses and the derivations
//! that the runtime's address functions perform.
use vstd::prelude::*;

use crate::key::Pubkey;

verus! {

/// The program address and bump seed that `Pubkey::try_find_program_address`
/// finds for `seeds` under `program_id`, or `None` where it finds none.
pub uninterp spec fn program_address(seeds: Seq<Seq<u8>>, program_id: Seq<u8>) -> Option<(Seq<u8>, u8)>;

/// Searches the program address of `seeds` under `program_id` by calling
/// `Pubkey::try_find_program_address` (solana-program): the result is exactly
/// what that function returns for these arguments, under the name
/// `program_address`. It hashes the seeds, a bump seed and the program id, and
/// returns `None` instead of panicking when the seeds are too many or too long
/// or when no bump seed gives an address off the curve.
#[verifier::external_body]
fn try_find_program_address(seeds: &Vec<Vec<u8>>, program_id: &Pubkey) -> (r: Option<(Pubkey, u8)>)
    ensures
        match r {
            Some((k, b)) => program_address(seeds.deep_view(), program_id@) == Some((k@, b)),
            None => program_address(seeds.deep_view(), program_id@) is None,
        },
{
    let slices: Vec<&[u8]> = seeds.iter().map(|s| s.as_slice()).collect();
    let id = anchor_lang::prelude::Pubkey::new_from_array(program_id.bytes);
    match anchor_lang::prelude::Pubkey::try_find_program_address(&slices, &id) {
        Some((k, b)) => Some((Pubkey { bytes: k.to_bytes() }, b)),
        None => None,
    }
}

/// The key of the classic token program, `TokenkegQfeZyiNwAJbNbGKPFXCWuBvf9Ss623VQ5DA`.
pub open spec fn token_program_id() -> Seq<u8> {
    seq![6u8, 221u8, 246u8, 225u8, 215u8, 101u8, 161u8, 147u8, 217u8, 203u8, 225u8, 70u8, 206u8, 235u8, 121u8, 172u8, 28u8, 180u8, 133u8, 237u8, 95u8, 91u8, 55u8, 145u8, 58u8, 140u8, 245u8, 133u8, 126u8, 255u8, 0u8, 169u8]
}

/// The key of the associated token account program,
/// `ATokenGPvbdGVxr1b2hvZbsiqW5xWH25efTNsLJA8knL`.
pub open spec fn associated_token_program_id() -> Seq<u8> {
    seq![140u8, 151u8, 37u8, 143u8, 78u8, 36u8, 137u8, 241u8, 187u8, 61u8, 16u8, 41u8, 20u8, 142u8, 13u8, 131u8, 11u8, 90u8, 19u8, 153u8, 218u8, 255u8, 16u8, 132u8, 4u8, 142u8, 123u8, 216u8, 219u8, 233u8, 248u8, 89u8]
}

/// The associated token account of `wallet` for `mint` under the classic token
/// program: the program address of `[wallet, token program, mint]` under the
/// associated token account program, where there is one.
pub open spec fn associated_token_address(wallet: Seq<u8>, mint: Seq<u8>) -> Option<Seq<u8>> {
    match program_address(seq![wallet, token_program_id(), mint], associated_token_program_id()) {
        Some((a, _)) => Some(a),
        None => None,
    }
}

/// The key of the classic token program.
pub fn token_program_key() -> (k: Pubkey)
    ensures
        k@ == token_program_id(),
{
    let k = Pubkey { bytes: [6u8, 221u8, 246u8, 225u8, 215u8, 101u8, 161u8, 147u8, 217u8, 203u8, 225u8, 70u8, 206u8, 235u8, 121u8, 172u8, 28u8, 180u8, 133u8, 237u8, 95u8, 91u8, 55u8, 145u8, 58u8, 140u8, 245u8, 133u8, 126u8, 255u8, 0u8, 169u8] };
    assert(k@ =~= token_program_id());
    k
}

/// The key of the associated token account program.
pub fn associated_token_program_key() -> (k: Pubkey)
    ensures
        k@ == associated_token_program_id(),
{
    let k = Pubkey { bytes: [140u8, 151u8, 37u8, 143u8, 78u8, 36u8, 137u8, 241u8, 187u8, 61u8, 16u8, 41u8, 20u8, 142u8, 13u8, 131u8, 11u8, 90u8, 19u8, 153u8, 218u8, 255u8, 16u8, 132u8, 4u8, 142u8, 123u8, 216u8, 219u8, 233u8, 248u8, 89u8] };
    assert(k@ =~= associated_token_program_id());
    k
}

/// The bytes of the text `faucet_state`.
pub open spec fn faucet_state_tag() -> Seq<u8> {
    seq![102u8, 97u8, 117u8, 99u8, 101u8, 116u8, 95u8, 115u8, 116u8, 97u8, 116u8, 101u8]
}

/// The bytes of the text `token_pool`.
pub open spec fn token_pool_tag() -> Seq<u8> {
    seq![116u8, 111u8, 107u8, 101u8, 110u8, 95u8, 112u8, 111u8, 111u8, 108u8]
}

/// The seeds of the faucet state of `mint` kept by `authority`.
pub open spec fn spec_faucet_state_seeds(mint: Seq<u8>, authority: Seq<u8>) -> Seq<Seq<u8>> {
    seq![faucet_state_tag(), mint, authority]
}

/// The seeds of the token pool that the faucet state `faucet_state` holds for `mint`.
pub open spec fn spec_token_pool_seeds(mint: Seq<u8>, faucet_state: Seq<u8>) -> Seq<Seq<u8>> {
    seq![token_pool_tag(), mint, faucet_state]
}

/// The seeds with which the faucet state signs: its own seeds and its bump seed.
pub open spec fn spec_faucet_signer_seeds(mint: Seq<u8>, authority: Seq<u8>, bump: u8) -> Seq<Seq<u8>> {
    spec_faucet_state_seeds(mint, authority).push(seq![bump])
}

fn faucet_state_tag_bytes() -> (v: Vec<u8>)
    ensures
        v.deep_view() == faucet_state_tag(),
{
    let s: &str = "faucet_state";
    proof {
        reveal_strlit("faucet_state");
        vstd::string::is_ascii_spec_bytes(s);
    }
    let v = vstd::slice::slice_to_vec(s.as_bytes());
    assert(v.deep_view() =~= faucet_state_tag());
    v
}

fn token_pool_tag_bytes() -> (v: Vec<u8>)
    ensures
        v.deep_view() == token_pool_tag(),
{
    let s: &str = "token_pool";
    proof {
        reveal_strlit("token_pool");
        vstd::string::is_ascii_spec_bytes(s);
    }
    let v = vstd::slice::slice_to_vec(s.as_bytes());
    assert(v.deep_view() =~= token_pool_tag());
    v
}

fn key_bytes(k: &Pubkey) -> (v: Vec<u8>)
    ensures
        v.deep_view() == k@,
{
    let v = vstd::slice::slice_to_vec(k.bytes.as_slice());
    assert(v.deep_view() =~= k@);
    v
}

/// The seeds `[b"faucet_state", mint, authority]`.
pub fn faucet_state_seeds(mint: &Pubkey, authority: &Pubkey) -> (s: Vec<Vec<u8>>)
    ensures
        s.deep_view() == spec_faucet_state_seeds(mint@, authority@),
{
    let mut s: Vec<Vec<u8>> = Vec::new();
    s.push(faucet_state_tag_bytes());
    s.push(key_bytes(mint));
    s.push(key_bytes(authority));
    assert(s.deep_view() =~= spec_faucet_state_seeds(mint@, authority@));
    s
}

/// The seeds `[b"token_pool", mint, faucet_state]`.
pub fn token_pool_seeds(mint: &Pubkey, faucet_state: &Pubkey) -> (s: Vec<Vec<u8>>)
    ensures
        s.deep_view() == spec_token_pool_seeds(mint@, faucet_state@),
{
    let mut s: Vec<Vec<u8>> = Vec::new();
    s.push(token_pool_tag_bytes());
    s.push(key_bytes(mint));
    s.push(key_bytes(faucet_state));
    assert(s.deep_view() =~= spec_token_pool_seeds(mint@, faucet_state@));
    s
}

/// The seeds `[b"faucet_state", mint, authority, [bump]]` with which the faucet
/// state signs transfers out of its pool.
pub fn faucet_signer_seeds(mint: &Pubkey, authority: &Pubkey, bump: u8) -> (s: Vec<Vec<u8>>)
    ensures
        s.deep_view() == spec_faucet_signer_seeds(mint@, authority@, bump),
{
    let mut s = faucet_state_seeds(mint, authority);
    let mut b: Vec<u8> = Vec::new();
    b.push(bump);
    assert(b.deep_view() =~= seq![bump]);
    s.push(b);
    assert(s.deep_view() =~= spec_faucet_signer_seeds(mint@, authority@, bump));
    s
}

/// The result of checking that `key` is the program address of `seeds` under
/// `program_id`: its bump seed, or a seeds violation.
pub open spec fn spec_check_seeds(key: Seq<u8>, seeds: Seq<Seq<u8>>, program_id: Seq<u8>) -> Result<u8, crate::error::ConstraintError> {
    match program_address(seeds, program_id) {
        Some((a, b)) => if a == key { Ok(b) } else { Err(crate::error::ConstraintError::Seeds) },
        None => Err(crate::error::ConstraintError::Seeds),
    }
}

/// Checks that `key` is the program address of `seeds` under `program_id`, and
/// gives its bump seed.
pub fn check_seeds(key: &Pubkey, seeds: &Vec<Vec<u8>>, program_id: &Pubkey) -> (r: Result<u8, crate::error::ConstraintError>)
    ensures
        r == spec_check_seeds(key@, seeds.deep_view(), program_id@),
{
    match try_find_program_address(seeds, program_id) {
        Some((a, b)) => {
            if a == *key {
                Ok(b)
            } else {
                Err(crate::error::ConstraintError::Seeds)
            }
        },
        None => Err(crate::error::ConstraintError::Seeds),
    }
}

/// The associated token account of `wallet` for `mint`, or `None` where no
/// bump seed gives an address.
pub fn associated_token_account(wallet: &Pubkey, mint: &Pubkey) -> (a: Option<Pubkey>)
    ensures
        match a {
            Some(k) => associated_token_address(wallet@, mint@) == Some(k@),
            None => associated_token_address(wallet@, mint@) is None,
        },
{
    let mut seeds: Vec<Vec<u8>> = Vec::new();
    seeds.push(key_bytes(wallet));
    seeds.push(key_bytes(&token_program_key()));
    seeds.push(key_bytes(mint));
    assert(seeds.deep_view() =~= seq![wallet@, token_program_id(), mint@]);
    match try_find_program_address(&seeds, &associated_token_program_key()) {
        Some((k, _)) => Some(k),
        None => None,
    }
}

/// Whether `key` is the associated token account of `wallet` for `mint`; never
/// where there is no such account.
pub fn is_associated_token_account(key: &Pubkey, wallet: &Pubkey, mint: &Pubkey) -> (r: bool)
    ensures
        r == (associated_token_address(wallet@, mint@) == Some(key@)),
{
    match associated_token_account(wallet, mint) {
        Some(a) => a == *key,
        None => false,
    }
}

} // verus!
