//! A deterministic per-owner custody vault.
//!
//! From an owner identity the vault derives two fixed addresses — a state
//! record and a holding account — and lets only that owner withdraw from or
//! permanently close the holding account. Every operation re-derives the
//! addresses from the stored bump seeds before touching any balance, so a
//! caller can never substitute another owner's accounts.

use vstd::prelude::*;

mod addr;
mod error;
mod instructions;
mod laws;
mod state;

pub use addr::{
    addr_eq, address_for_bump, derivation_consistent, derivation_of, derive_holding_address,
    derive_state_address, matches_derivation, state_tag, state_tag_bytes, vault_tag,
    vault_tag_bytes, Address,
};
pub use error::VaultError;
pub use instructions::{
    access_rejection, close_accepted, close_rejection, deposit_accepted, deposit_rejection,
    holding_valid, initialize_accepted, initialize_authorized, initialize_rejection,
    initialized_record, initialized_state, vault_authorized, withdraw_accepted,
    withdraw_rejection, Close, Deposit, Initialize, Withdraw,
};
pub use laws::{
    lemma_closed_record_rejected, lemma_derivation_stable, lemma_initialized_record_authorizes,
    lemma_overdraw_rejected, lemma_reinitialize_rejected,
};
pub use state::{AccountSlot, StateSlot, VaultState};

verus! {

/// Entry point for Initialize: creates the caller's state record and binds
/// the holding account, as `Initialize::initialize` states.
pub fn initialize(ctx: &mut Initialize) -> (r: Result<(), VaultError>)
    ensures
        r is Ok <==> initialize_accepted(*old(ctx)),
        r matches Err(e) ==> *final(ctx) == *old(ctx) && e == initialize_rejection(*old(ctx)),
        r is Ok ==> ({
            &&& *final(ctx) == initialized_state(*old(ctx))
            &&& vault_authorized(
                old(ctx).program_id@,
                old(ctx).signer.address@,
                final(ctx).vault_state,
                old(ctx).vault.address@,
            )
        }),
{
    ctx.initialize()
}

/// Entry point for Deposit: moves `amount` from the caller into the
/// holding account, as `Deposit::deposit` states.
pub fn deposit(ctx: &mut Deposit, amount: u64) -> (r: Result<(), VaultError>)
    requires
        deposit_accepted(*old(ctx), amount) ==> old(ctx).vault.lamports + amount <= u64::MAX,
    ensures
        r is Ok <==> deposit_accepted(*old(ctx), amount),
        r matches Err(e) ==> *final(ctx) == *old(ctx) && e == deposit_rejection(*old(ctx), amount),
        r is Ok ==> ({
            &&& final(ctx).signer.lamports == old(ctx).signer.lamports - amount
            &&& final(ctx).vault.lamports == old(ctx).vault.lamports + amount
            &&& final(ctx).signer.address == old(ctx).signer.address
            &&& final(ctx).vault.address == old(ctx).vault.address
            &&& final(ctx).vault_state == old(ctx).vault_state
            &&& final(ctx).program_id == old(ctx).program_id
        }),
{
    ctx.deposit(amount)
}

/// Entry point for Withdraw: moves `amount` from the holding account back
/// to the owner, as `Withdraw::withdraw` states.
pub fn withdraw(ctx: &mut Withdraw, amount: u64) -> (r: Result<(), VaultError>)
    requires
        withdraw_accepted(*old(ctx), amount) ==> old(ctx).signer.lamports + amount <= u64::MAX,
    ensures
        r is Ok <==> withdraw_accepted(*old(ctx), amount),
        r matches Err(e) ==> *final(ctx) == *old(ctx) && e == withdraw_rejection(*old(ctx), amount),
        r is Ok ==> ({
            &&& final(ctx).vault.lamports == old(ctx).vault.lamports - amount
            &&& final(ctx).signer.lamports == old(ctx).signer.lamports + amount
            &&& final(ctx).signer.address == old(ctx).signer.address
            &&& final(ctx).vault.address == old(ctx).vault.address
            &&& final(ctx).vault_state == old(ctx).vault_state
            &&& final(ctx).program_id == old(ctx).program_id
        }),
{
    ctx.withdraw(amount)
}

/// Entry point for Close: sweeps the holding balance to the owner and
/// removes the state record, as `Close::close` states.
pub fn close(ctx: &mut Close) -> (r: Result<(), VaultError>)
    requires
        close_accepted(*old(ctx)) ==> old(ctx).signer.lamports + old(ctx).vault.lamports
            <= u64::MAX,
    ensures
        r is Ok <==> close_accepted(*old(ctx)),
        r matches Err(e) ==> *final(ctx) == *old(ctx) && e == close_rejection(*old(ctx)),
        r is Ok ==> ({
            &&& final(ctx).vault.lamports == 0
            &&& final(ctx).signer.lamports == old(ctx).signer.lamports + old(ctx).vault.lamports
            &&& final(ctx).vault_state.record is None
            &&& final(ctx).vault_state.address == old(ctx).vault_state.address
            &&& final(ctx).signer.address == old(ctx).signer.address
            &&& final(ctx).vault.address == old(ctx).vault.address
            &&& final(ctx).program_id == old(ctx).program_id
        }),
{
    ctx.close()
}

} // verus!
