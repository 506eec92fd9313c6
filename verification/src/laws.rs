//! The vault's lifetime guarantees, stated and proved once over the
//! operation specifications.

use crate::addr::{derivation_consistent, derivation_of, state_tag, vault_tag};
use crate::error::VaultError;
use crate::instructions::{
    holding_valid, initialize_accepted, initialize_rejection, initialized_state,
    vault_authorized, withdraw_accepted, withdraw_rejection, Initialize, Withdraw,
};
use vstd::prelude::*;

verus! {

/// Law: address derivation is stable. The derived address and bump are a
/// function of the domain tag, the derivation input and the program id
/// alone, so any two derivations over the same triple agree.
pub proof fn lemma_derivation_stable(
    tag: Seq<u8>,
    input: Seq<u8>,
    program: Seq<u8>,
    r1: Option<(Seq<u8>, u8)>,
    r2: Option<(Seq<u8>, u8)>,
)
    ensures
        (r1 == derivation_of(tag, input, program) && r2 == derivation_of(tag, input, program))
            ==> r1 == r2,
{
}

/// Law: a record written by Initialize authorizes the operations that
/// follow. Under the host's guarantee that the canonical derivation
/// re-derives with its own bump, the stored bumps re-derive exactly the
/// state and holding addresses the record was bound to: Withdraw and Close
/// accept the owner on those accounts, and Deposit accepts any funder on
/// the bound holding account.
pub proof fn lemma_initialized_record_authorizes(pre: Initialize)
    ensures
        (initialize_accepted(pre) && derivation_consistent(
            state_tag(),
            pre.signer.address@,
            pre.program_id@,
        ) && derivation_consistent(vault_tag(), pre.vault_state.address@, pre.program_id@))
            ==> ({
            &&& vault_authorized(
                pre.program_id@,
                pre.signer.address@,
                initialized_state(pre).vault_state,
                pre.vault.address@,
            )
            &&& holding_valid(
                pre.program_id@,
                initialized_state(pre).vault_state,
                pre.vault.address@,
            )
        }),
{
}

/// Law: Initialize is not repeatable. On the accounts a successful
/// Initialize leaves behind, a second Initialize is refused with
/// AlreadyInitialized, and with nothing else.
pub proof fn lemma_reinitialize_rejected(pre: Initialize)
    ensures
        initialize_accepted(pre) ==> ({
            &&& !initialize_accepted(initialized_state(pre))
            &&& initialize_rejection(initialized_state(pre)) == VaultError::AlreadyInitialized
        }),
{
}

/// Law: a missing record ends every Withdraw in RecordNotFound — in
/// particular any Withdraw attempted after Close has removed the record.
pub proof fn lemma_closed_record_rejected(pre: Withdraw, amount: u64)
    ensures
        pre.vault_state.record is None ==> ({
            &&& !withdraw_accepted(pre, amount)
            &&& withdraw_rejection(pre, amount) == VaultError::RecordNotFound
        }),
{
}

/// Law: an overdraw is refused as InsufficientFunds. When the record
/// authorizes the caller but the holding account holds less than the
/// requested amount, Withdraw fails with exactly that error; its
/// operation contract adds that every failure leaves the accounts
/// unchanged.
pub proof fn lemma_overdraw_rejected(pre: Withdraw, amount: u64)
    ensures
        (vault_authorized(pre.program_id@, pre.signer.address@, pre.vault_state, pre.vault.address@)
            && amount > pre.vault.lamports) ==> ({
            &&& !withdraw_accepted(pre, amount)
            &&& withdraw_rejection(pre, amount) == VaultError::InsufficientFunds
        }),
{
}

} // verus!
