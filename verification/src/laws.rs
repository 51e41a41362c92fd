//! Properties that hold across the faucet's instructions.
use vstd::prelude::*;
use vstd::arithmetic::power::{lemma_pow_positive, pow};

use crate::address::{program_address, spec_check_seeds, spec_faucet_state_seeds, spec_token_pool_seeds};
use crate::constraints::spec_check_created_associated;
use crate::error::{ErrorCode, FaucetError};
use crate::faucet::spec_update;
use crate::instructions::airdrop::{lamports_required, Airdrop};
use crate::instructions::close_faucet::CloseFaucet;
use crate::instructions::fund::Fund;
use crate::instructions::initialize::{spec_initialize, Initialize};
use crate::instructions::refund::Refund;
use crate::key::Pubkey;
use crate::state::{airdropped, funded, refunded, updated, Bumps, FaucetState};

verus! {

/// A change that an instruction other than set-up makes to a faucet's state.
pub enum StateChange {
    Update { price_per_token: u64, treasury: Pubkey },
    Fund(u64),
    Airdrop(u64),
    Refund,
}

/// The state after one change.
pub open spec fn apply_change(s: FaucetState, c: StateChange) -> FaucetState {
    match c {
        StateChange::Update { price_per_token, treasury } => updated(s, price_per_token, treasury),
        StateChange::Fund(amount) => funded(s, amount),
        StateChange::Airdrop(amount) => airdropped(s, amount),
        StateChange::Refund => refunded(s),
    }
}

/// The state after the changes `cs`, in order.
pub open spec fn apply_changes(s: FaucetState, cs: Seq<StateChange>) -> FaucetState
    decreases cs.len(),
{
    if cs.len() == 0 {
        s
    } else {
        apply_changes(apply_change(s, cs[0]), cs.drop_first())
    }
}

/// No change other than set-up touches the mint or the authority a faucet
/// records.
pub proof fn lemma_changes_keep_identity(s: FaucetState, cs: Seq<StateChange>)
    ensures
        apply_changes(s, cs).allowed_token == s.allowed_token,
        apply_changes(s, cs).authority == s.authority,
    decreases cs.len(),
{
    if cs.len() > 0 {
        lemma_changes_keep_identity(apply_change(s, cs[0]), cs.drop_first());
    }
}

/// A faucet is set up once per mint: after a successful set-up, and whatever
/// updates, fundings, airdrops and refunds follow, setting up the same state
/// for the same mint again is refused with `FaucetAccountAlreadyInitialised`,
/// whoever asks and at whatever price (and the refusal leaves the state as it
/// is, by the set-up's own contract).
pub proof fn lemma_initialize_once(
    state: FaucetState,
    mint: Pubkey,
    authority: Pubkey,
    price_per_token: u64,
    treasury: Pubkey,
    changes: Seq<StateChange>,
    other_authority: Pubkey,
    other_price: u64,
    other_treasury: Pubkey,
)
    requires
        spec_initialize(state, mint, authority, price_per_token, treasury) is Ok,
    ensures
        spec_initialize(
            apply_changes(spec_initialize(state, mint, authority, price_per_token, treasury)->Ok_0, changes),
            mint,
            other_authority,
            other_price,
            other_treasury,
        ) == Err::<FaucetState, FaucetError>(FaucetError::Faucet(ErrorCode::FaucetAccountAlreadyInitialised)),
{
    lemma_changes_keep_identity(spec_initialize(state, mint, authority, price_per_token, treasury)->Ok_0, changes);
}

/// A set-up faucet starts with an empty pool, and an update right after it
/// succeeds, replaces only the price and the treasury, and keeps the
/// authority, the mint and the empty supply.
pub proof fn lemma_update_after_initialize(
    state: FaucetState,
    mint: Pubkey,
    authority: Pubkey,
    price_per_token: u64,
    treasury: Pubkey,
    new_price: u64,
    new_treasury: Pubkey,
)
    requires
        spec_initialize(state, mint, authority, price_per_token, treasury) is Ok,
    ensures
        ({
            let s = spec_initialize(state, mint, authority, price_per_token, treasury)->Ok_0;
            &&& s.total_supply == 0
            &&& spec_update(s, mint, new_price, new_treasury) == Ok::<FaucetState, FaucetError>(FaucetState {
                authority,
                treasury: new_treasury,
                allowed_token: mint,
                price_per_token: new_price,
                total_supply: 0,
            })
        }),
{
}

/// Only a faucet set up for the mint can be updated: on any other state the
/// update is refused with `FaucetAccountNotInitialised` and changes nothing.
pub proof fn lemma_update_needs_initialize(state: FaucetState, mint: Pubkey, price_per_token: u64, treasury: Pubkey)
    requires
        state.allowed_token@ != mint@,
    ensures
        spec_update(state, mint, price_per_token, treasury) == Err::<FaucetState, FaucetError>(FaucetError::Faucet(ErrorCode::FaucetAccountNotInitialised)),
{
}

/// Funding, airdrops and refunds change only the supply: the authority, the
/// treasury, the mint and the price stay as they were.
pub proof fn lemma_supply_moves_alone(state: FaucetState, amount: u64)
    ensures
        funded(state, amount) == (FaucetState { total_supply: funded(state, amount).total_supply, ..state }),
        airdropped(state, amount) == (FaucetState { total_supply: airdropped(state, amount).total_supply, ..state }),
        refunded(state) == (FaucetState { total_supply: 0, ..state }),
{
}

/// Handing out what was just funded restores the supply: a completed funding
/// of `amount` followed by a completed airdrop of `amount` leaves the state as
/// it was.
pub proof fn lemma_fund_then_airdrop(state: FaucetState, amount: u64)
    requires
        state.total_supply + amount <= u64::MAX,
    ensures
        funded(state, amount).total_supply >= amount,
        airdropped(funded(state, amount), amount) == state,
{
}

/// An emptied pool stays empty until it is funded: after a refund, and any
/// number of updates and further refunds, an airdrop of any amount is refused;
/// once the receiving account, the faucet state's seeds and authority, and the
/// pool's seeds pass, it is refused with `InsufficientPoolBalance`, so neither
/// lamports nor tokens move.
pub proof fn lemma_no_airdrop_after_refund(s: FaucetState, changes: Seq<StateChange>, ctx: Airdrop, amount: u64)
    requires
        forall|i: int| 0 <= i < changes.len() ==> (#[trigger] changes[i] is Update || changes[i] is Refund),
        ctx.faucet_state == apply_changes(refunded(s), changes),
    ensures
        ctx.faucet_state.total_supply == 0,
        ctx.spec_validate(amount) is Err,
        ({
            let mint = ctx.allowed_token_mint.key;
            (spec_check_created_associated(ctx.receiver_ata, ctx.signer, mint) is Ok
                && spec_check_seeds(ctx.faucet_state_key@, spec_faucet_state_seeds(mint@, ctx.faucet_authority@), ctx.program_id@) is Ok
                && ctx.faucet_authority@ == ctx.faucet_state.authority@
                && spec_check_seeds(ctx.token_pool_acc.key@, spec_token_pool_seeds(mint@, ctx.faucet_state_key@), ctx.program_id@) is Ok)
            ==> ctx.spec_validate(amount) == Err::<Bumps, FaucetError>(FaucetError::Faucet(ErrorCode::InsufficientPoolBalance))
        }),
{
    lemma_empty_pool_stays_empty(refunded(s), changes);
}

proof fn lemma_empty_pool_stays_empty(s: FaucetState, changes: Seq<StateChange>)
    requires
        s.total_supply == 0,
        forall|i: int| 0 <= i < changes.len() ==> (#[trigger] changes[i] is Update || changes[i] is Refund),
    ensures
        apply_changes(s, changes).total_supply == 0,
    decreases changes.len(),
{
    if changes.len() > 0 {
        assert(changes[0] is Update || changes[0] is Refund);
        let rest = changes.drop_first();
        assert forall|i: int| 0 <= i < rest.len() implies (#[trigger] rest[i] is Update || rest[i] is Refund) by {
            assert(rest[i] == changes[i + 1]);
        }
        lemma_empty_pool_stays_empty(apply_change(s, changes[0]), rest);
    }
}

/// The recorded supply never exceeds what the pool holds: where it does not
/// before, a completed funding (the pool gaining `amount`), airdrop (the pool
/// losing `amount`, which it then holds) or refund (the pool emptied) keeps it
/// so.
pub proof fn lemma_supply_within_pool(s: FaucetState, pool: u64, amount: u64)
    requires
        s.total_supply <= pool,
    ensures
        s.total_supply + amount <= u64::MAX ==> funded(s, amount).total_supply <= pool + amount,
        amount <= s.total_supply ==> amount <= pool && airdropped(s, amount).total_supply <= pool - amount,
        refunded(s).total_supply <= 0,
{
}

/// An airdrop that passes the checks is covered by the pool itself wherever
/// the recorded supply does not exceed the pool, and the supply after it does
/// not exceed what the pool keeps.
pub proof fn lemma_airdrop_within_pool(ctx: Airdrop, amount: u64)
    requires
        ctx.spec_validate(amount) is Ok,
        ctx.faucet_state.total_supply <= ctx.token_pool_acc.amount,
    ensures
        ctx.token_pool_acc.amount >= amount,
        airdropped(ctx.faucet_state, amount).total_supply <= ctx.token_pool_acc.amount - amount,
{
}

/// Only the faucet's authority can fund it, and only at the faucet state that
/// the mint and that authority determine: accounts that pass the funding
/// checks name the state's authority, a pool owned by the state, and a state
/// at the program address of its seeds.
pub proof fn lemma_fund_needs_authority(ctx: Fund, amount: u64)
    requires
        ctx.spec_validate(amount) is Ok,
    ensures
        ctx.faucet_state.authority@ == ctx.authority@,
        ctx.token_pool_acc.owner@ == ctx.faucet_state_key@,
        program_address(spec_faucet_state_seeds(ctx.allowed_token_mint@, ctx.authority@), ctx.program_id@)
            == Some((ctx.faucet_state_key@, ctx.spec_validate(amount)->Ok_0.faucet_state)),
        amount > 0,
        ctx.token_ata.amount >= amount,
{
}

/// Only the faucet's authority can take the pool back, and only into its own
/// token account.
pub proof fn lemma_refund_needs_authority(ctx: Refund)
    requires
        ctx.spec_validate() is Ok,
    ensures
        ctx.faucet_state.authority@ == ctx.authority@,
        ctx.receiver_ata.owner@ == ctx.authority@,
        program_address(spec_faucet_state_seeds(ctx.allowed_token_mint@, ctx.authority@), ctx.program_id@)
            == Some((ctx.faucet_state_key@, ctx.spec_validate()->Ok_0.faucet_state)),
{
}

/// Only the faucet's authority can close it, and the faucet state never
/// receives its own lamports.
pub proof fn lemma_close_needs_authority(ctx: CloseFaucet)
    requires
        ctx.spec_validate() is Ok,
    ensures
        ctx.faucet_state.authority@ == ctx.authority@,
        ctx.faucet_state_key@ != ctx.authority@,
        program_address(spec_faucet_state_seeds(ctx.allowed_token_mint@, ctx.authority@), ctx.program_id@)
            == Some((ctx.faucet_state_key@, ctx.spec_validate()->Ok_0.faucet_state)),
{
}

/// An airdrop that passes the checks is covered by the pool, pays the state's
/// treasury, hands out the state's mint from the pool that belongs to the
/// state, and its completion leaves the rest of the pool in the supply.
pub proof fn lemma_airdrop_covered(ctx: Airdrop, amount: u64)
    requires
        ctx.spec_validate(amount) is Ok,
    ensures
        ctx.faucet_state.total_supply > 0,
        ctx.faucet_state.total_supply >= amount,
        airdropped(ctx.faucet_state, amount).total_supply == ctx.faucet_state.total_supply - amount,
        ctx.treasury_acc@ == ctx.faucet_state.treasury@,
        ctx.allowed_token_mint.key@ == ctx.faucet_state.allowed_token@,
        ctx.faucet_authority@ == ctx.faucet_state.authority@,
        ctx.token_pool_acc.owner@ == ctx.faucet_state_key@,
        ctx.receiver_ata.owner@ == ctx.signer@,
        program_address(spec_token_pool_seeds(ctx.allowed_token_mint.key@, ctx.faucet_state_key@), ctx.program_id@)
            == Some((ctx.token_pool_acc.key@, ctx.spec_validate(amount)->Ok_0.token_pool)),
{
}

/// Airdrops of less than one whole token cost nothing, and the price never
/// exceeds the number of whole tokens times the price per token.
pub proof fn lemma_fraction_is_free(amount: u64, decimals: u8, price_per_token: u64)
    ensures
        amount < pow(10, decimals as nat) ==> lamports_required(amount, decimals, price_per_token) == 0,
        lamports_required(amount, decimals, price_per_token) >= 0,
{
    lemma_pow_positive(10, decimals as nat);
    let p = pow(10, decimals as nat);
    let q = amount as int / p;
    assert(q >= 0) by (nonlinear_arith)
        requires
            p > 0,
            amount >= 0,
            q == amount as int / p,
    ;
    assert(amount < p ==> q == 0) by (nonlinear_arith)
        requires
            p > 0,
            amount >= 0,
            q == amount as int / p,
    ;
    assert(q * price_per_token >= 0) by (nonlinear_arith)
        requires
            q >= 0,
            price_per_token >= 0,
    ;
    assert(q == 0 ==> q * price_per_token == 0) by (nonlinear_arith);
    assert(lamports_required(amount, decimals, price_per_token) == q * price_per_token);
}

} // verus!
