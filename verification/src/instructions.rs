//! The four vault operations.
//!
//! Each operation acts on the accounts the caller hands it: the caller's own
//! account, the claimed holding account and the claimed state-record slot.
//! Before any state or balance changes, the operation re-derives the claimed
//! addresses from the stored bump seeds — always the holding account from
//! the state record, and for Withdraw and Close also the state record from
//! the caller's identity — and refuses the operation if a claimed address
//! does not match. Only then does value move, and every failure leaves all
//! accounts exactly as they were.

use crate::addr::{
    addr_eq, address_for_bump, derivation_of, derive_holding_address, derive_state_address,
    matches_derivation, state_tag, state_tag_bytes, vault_tag, vault_tag_bytes, Address,
};
use crate::error::VaultError;
use crate::state::{AccountSlot, StateSlot, VaultState};
use vstd::prelude::*;

verus! {

/// The record in `state` authorizes `caller` to act on the holding account
/// at `holding`: the record exists, its stored state bump re-derives the
/// record's own address from the caller's identity, and its stored vault
/// bump re-derives the holding address from the record's address.
pub open spec fn vault_authorized(program: Seq<u8>, caller: Seq<u8>, state: StateSlot, holding: Seq<u8>) -> bool {
    &&& state.record matches Some(st)
    &&& address_for_bump(state_tag(), caller, st.state_bump, program) == Some(state.address@)
    &&& address_for_bump(vault_tag(), state.address@, st.vault_bump, program) == Some(holding)
}

/// The record in `state` binds the holding account at `holding`: the record
/// exists and its stored vault bump re-derives the holding address from the
/// record's own address. This is all Deposit asks of the accounts — the
/// caller need not be the owner, since a credit to the derived address can
/// only ever land in the vault bound to that record.
pub open spec fn holding_valid(program: Seq<u8>, state: StateSlot, holding: Seq<u8>) -> bool {
    &&& state.record matches Some(st)
    &&& address_for_bump(vault_tag(), state.address@, st.vault_bump, program) == Some(holding)
}

/// Which failure an unauthorized access ends in: a missing record before
/// anything else, then a caller that does not re-derive the claimed state
/// record, then a holding address that does not re-derive from the record.
pub open spec fn access_rejection(program: Seq<u8>, caller: Seq<u8>, state: StateSlot, holding: Seq<u8>) -> VaultError
    recommends
        !vault_authorized(program, caller, state, holding),
{
    if state.record is None {
        VaultError::RecordNotFound
    } else if address_for_bump(state_tag(), caller, state.record->0.state_bump, program) != Some(state.address@) {
        VaultError::Unauthorized
    } else {
        VaultError::InvalidHoldingAddress
    }
}

/// Delegated signing authority over one holding account: the derivation
/// seeds with which the vault authorizes a debit of an account it does not
/// own as an identity. Constructed only inside Withdraw and Close after
/// every check has passed, and consumed at once by the transfer it signs.
pub(crate) struct HoldingAuthority {
    pub state_address: Address,
    pub vault_bump: u8,
}

/// The accounts Initialize acts on: the owner (who signs and pays for the
/// allocation), the holding account to be bound, and the slot the new state
/// record is allocated in.
pub struct Initialize {
    pub program_id: Address,
    pub signer: AccountSlot,
    pub vault: AccountSlot,
    pub vault_state: StateSlot,
}

/// Both claimed addresses are the canonical derivations for this owner:
/// the state slot sits at the address derived from the owner identity, and
/// the holding account at the address derived from the state slot.
pub open spec fn initialize_authorized(pre: Initialize) -> bool {
    &&& (derivation_of(state_tag(), pre.signer.address@, pre.program_id@) matches Some(p)
        && p.0 == pre.vault_state.address@)
    &&& (derivation_of(vault_tag(), pre.vault_state.address@, pre.program_id@) matches Some(q)
        && q.0 == pre.vault.address@)
}

/// Initialize succeeds exactly when the claimed addresses are canonical and
/// no record is allocated yet.
pub open spec fn initialize_accepted(pre: Initialize) -> bool {
    initialize_authorized(pre) && pre.vault_state.record is None
}

/// Which failure Initialize ends in when it is refused.
pub open spec fn initialize_rejection(pre: Initialize) -> VaultError
    recommends
        !initialize_accepted(pre),
{
    if !(derivation_of(state_tag(), pre.signer.address@, pre.program_id@) matches Some(p)
        && p.0 == pre.vault_state.address@) {
        VaultError::Unauthorized
    } else if !(derivation_of(vault_tag(), pre.vault_state.address@, pre.program_id@) matches Some(q)
        && q.0 == pre.vault.address@) {
        VaultError::InvalidHoldingAddress
    } else {
        VaultError::AlreadyInitialized
    }
}

/// The record a successful Initialize writes: the two bump seeds the
/// canonical derivations return.
pub open spec fn initialized_record(pre: Initialize) -> VaultState
    recommends
        initialize_authorized(pre),
{
    VaultState {
        vault_bump: (derivation_of(vault_tag(), pre.vault_state.address@, pre.program_id@)->0).1,
        state_bump: (derivation_of(state_tag(), pre.signer.address@, pre.program_id@)->0).1,
    }
}

/// The accounts after a successful Initialize: the new record is in place,
/// everything else untouched.
pub open spec fn initialized_state(pre: Initialize) -> Initialize
    recommends
        initialize_authorized(pre),
{
    Initialize {
        program_id: pre.program_id,
        signer: pre.signer,
        vault: pre.vault,
        vault_state: StateSlot {
            address: pre.vault_state.address,
            record: Some(initialized_record(pre)),
        },
    }
}

impl Initialize {
    /// Creates the owner's state record: derives the canonical state and
    /// holding addresses, checks them against the claimed accounts, refuses
    /// a second allocation, and stores the two bump seeds. Balances are not
    /// touched.
    pub fn initialize(&mut self) -> (r: Result<(), VaultError>)
        ensures
            r is Ok <==> initialize_accepted(*old(self)),
            r matches Err(e) ==> *final(self) == *old(self) && e == initialize_rejection(*old(self)),
            r is Ok ==> ({
                &&& *final(self) == initialized_state(*old(self))
                &&& vault_authorized(
                    old(self).program_id@,
                    old(self).signer.address@,
                    final(self).vault_state,
                    old(self).vault.address@,
                )
            }),
    {
        let state_found: Option<(Address, u8)> = derive_state_address(&self.signer.address, &self.program_id);
        let (state_addr, state_bump): (Address, u8) = match state_found {
            Some(p) => p,
            None => {
                return Err(VaultError::Unauthorized);
            },
        };
        if !addr_eq(&state_addr, &self.vault_state.address) {
            return Err(VaultError::Unauthorized);
        }
        let holding_found: Option<(Address, u8)> = derive_holding_address(&self.vault_state.address, &self.program_id);
        let (holding_addr, vault_bump): (Address, u8) = match holding_found {
            Some(p) => p,
            None => {
                return Err(VaultError::InvalidHoldingAddress);
            },
        };
        if !addr_eq(&holding_addr, &self.vault.address) {
            return Err(VaultError::InvalidHoldingAddress);
        }
        if self.vault_state.record.is_some() {
            return Err(VaultError::AlreadyInitialized);
        }
        self.vault_state.record = Some(VaultState { vault_bump, state_bump });
        Ok(())
    }
}

/// The accounts Deposit acts on: the caller funding the deposit, the
/// holding account credited, and the caller's state record.
pub struct Deposit {
    pub program_id: Address,
    pub signer: AccountSlot,
    pub vault: AccountSlot,
    pub vault_state: StateSlot,
}

/// Deposit succeeds exactly when the record binds the holding account, the
/// amount is positive, and the caller can fund it. The caller need not be
/// the owner: anyone may fund an owner's vault.
pub open spec fn deposit_accepted(pre: Deposit, amount: u64) -> bool {
    &&& holding_valid(pre.program_id@, pre.vault_state, pre.vault.address@)
    &&& 0 < amount
    &&& amount <= pre.signer.lamports
}

/// Which failure Deposit ends in when it is refused: a missing record, then
/// a holding address that does not re-derive from the record, then a
/// transfer the caller cannot fund (a zero amount, or more than the caller
/// holds).
pub open spec fn deposit_rejection(pre: Deposit, amount: u64) -> VaultError
    recommends
        !deposit_accepted(pre, amount),
{
    if pre.vault_state.record is None {
        VaultError::RecordNotFound
    } else if !holding_valid(pre.program_id@, pre.vault_state, pre.vault.address@) {
        VaultError::InvalidHoldingAddress
    } else {
        VaultError::InsufficientFunds
    }
}

impl Deposit {
    /// Moves `amount` from the caller's balance into the holding account,
    /// after re-deriving the holding address from the state record and the
    /// stored bump. The caller need not be the owner — the derived address
    /// makes sure the credit lands in the vault bound to that record, and
    /// only the owner can move it out again. The record itself never
    /// changes.
    pub fn deposit(&mut self, amount: u64) -> (r: Result<(), VaultError>)
        requires
            deposit_accepted(*old(self), amount) ==> old(self).vault.lamports + amount
                <= u64::MAX,
        ensures
            r is Ok <==> deposit_accepted(*old(self), amount),
            r matches Err(e) ==> *final(self) == *old(self) && e == deposit_rejection(*old(self), amount),
            r is Ok ==> ({
                &&& final(self).signer.lamports == old(self).signer.lamports - amount
                &&& final(self).vault.lamports == old(self).vault.lamports + amount
                &&& final(self).signer.address == old(self).signer.address
                &&& final(self).vault.address == old(self).vault.address
                &&& final(self).vault_state == old(self).vault_state
                &&& final(self).program_id == old(self).program_id
            }),
    {
        let record: VaultState = match self.vault_state.record {
            Some(st) => st,
            None => {
                return Err(VaultError::RecordNotFound);
            },
        };
        let tag_holding: Vec<u8> = vault_tag_bytes();
        if !matches_derivation(&tag_holding, &self.vault_state.address, record.vault_bump, &self.program_id, &self.vault.address) {
            return Err(VaultError::InvalidHoldingAddress);
        }
        if amount == 0 || self.signer.lamports < amount {
            return Err(VaultError::InsufficientFunds);
        }
        self.signer.lamports = self.signer.lamports - amount;
        self.vault.lamports = self.vault.lamports + amount;
        Ok(())
    }
}

/// The accounts Withdraw acts on: the owner receiving the value, the
/// holding account debited, and the owner's state record.
pub struct Withdraw {
    pub program_id: Address,
    pub signer: AccountSlot,
    pub vault: AccountSlot,
    pub vault_state: StateSlot,
}

/// Withdraw succeeds exactly when the record authorizes the caller and the
/// holding account covers the amount.
pub open spec fn withdraw_accepted(pre: Withdraw, amount: u64) -> bool {
    &&& vault_authorized(pre.program_id@, pre.signer.address@, pre.vault_state, pre.vault.address@)
    &&& amount <= pre.vault.lamports
}

/// Which failure Withdraw ends in when it is refused.
pub open spec fn withdraw_rejection(pre: Withdraw, amount: u64) -> VaultError
    recommends
        !withdraw_accepted(pre, amount),
{
    if !vault_authorized(pre.program_id@, pre.signer.address@, pre.vault_state, pre.vault.address@) {
        access_rejection(pre.program_id@, pre.signer.address@, pre.vault_state, pre.vault.address@)
    } else {
        VaultError::InsufficientFunds
    }
}

impl Withdraw {
    /// Moves `amount` from the holding account back to the owner. The debit
    /// is signed on the holding account's behalf with the re-derived seeds:
    /// the one place the vault exercises authority over funds it does not
    /// own, and only after the caller has been checked to be the owner.
    pub fn withdraw(&mut self, amount: u64) -> (r: Result<(), VaultError>)
        requires
            withdraw_accepted(*old(self), amount) ==> old(self).signer.lamports + amount
                <= u64::MAX,
        ensures
            r is Ok <==> withdraw_accepted(*old(self), amount),
            r matches Err(e) ==> *final(self) == *old(self) && e == withdraw_rejection(*old(self), amount),
            r is Ok ==> ({
                &&& final(self).vault.lamports == old(self).vault.lamports - amount
                &&& final(self).signer.lamports == old(self).signer.lamports + amount
                &&& final(self).signer.address == old(self).signer.address
                &&& final(self).vault.address == old(self).vault.address
                &&& final(self).vault_state == old(self).vault_state
                &&& final(self).program_id == old(self).program_id
            }),
    {
        let record: VaultState = match self.vault_state.record {
            Some(st) => st,
            None => {
                return Err(VaultError::RecordNotFound);
            },
        };
        let tag_state: Vec<u8> = state_tag_bytes();
        if !matches_derivation(&tag_state, &self.signer.address, record.state_bump, &self.program_id, &self.vault_state.address) {
            return Err(VaultError::Unauthorized);
        }
        let tag_holding: Vec<u8> = vault_tag_bytes();
        if !matches_derivation(&tag_holding, &self.vault_state.address, record.vault_bump, &self.program_id, &self.vault.address) {
            return Err(VaultError::InvalidHoldingAddress);
        }
        if self.vault.lamports < amount {
            return Err(VaultError::InsufficientFunds);
        }
        let authority = HoldingAuthority {
            state_address: self.vault_state.address,
            vault_bump: record.vault_bump,
        };
        self.transfer_from_holding(amount, authority);
        Ok(())
    }

    /// Consumes a holding authority to debit the holding account in the
    /// owner's favour.
    fn transfer_from_holding(&mut self, amount: u64, authority: HoldingAuthority)
        requires
            amount <= old(self).vault.lamports,
            old(self).signer.lamports + amount <= u64::MAX,
            authority.state_address@ == old(self).vault_state.address@,
            address_for_bump(
                vault_tag(),
                authority.state_address@,
                authority.vault_bump,
                old(self).program_id@,
            ) == Some(old(self).vault.address@),
        ensures
            final(self).vault.lamports == old(self).vault.lamports - amount,
            final(self).signer.lamports == old(self).signer.lamports + amount,
            final(self).signer.address == old(self).signer.address,
            final(self).vault.address == old(self).vault.address,
            final(self).vault_state == old(self).vault_state,
            final(self).program_id == old(self).program_id,
    {
        self.vault.lamports = self.vault.lamports - amount;
        self.signer.lamports = self.signer.lamports + amount;
    }
}

/// The accounts Close acts on: the owner receiving the swept balance, the
/// holding account to be emptied, and the state record to be removed.
pub struct Close {
    pub program_id: Address,
    pub signer: AccountSlot,
    pub vault: AccountSlot,
    pub vault_state: StateSlot,
}

/// Close succeeds exactly when the record authorizes the caller.
pub open spec fn close_accepted(pre: Close) -> bool {
    vault_authorized(pre.program_id@, pre.signer.address@, pre.vault_state, pre.vault.address@)
}

/// Which failure Close ends in when it is refused.
pub open spec fn close_rejection(pre: Close) -> VaultError
    recommends
        !close_accepted(pre),
{
    access_rejection(pre.program_id@, pre.signer.address@, pre.vault_state, pre.vault.address@)
}

impl Close {
    /// Sweeps the holding account's entire balance back to the owner and
    /// removes the state record. A later operation on the same slot finds
    /// no record; the owner may initialize afresh.
    pub fn close(&mut self) -> (r: Result<(), VaultError>)
        requires
            close_accepted(*old(self)) ==> old(self).signer.lamports + old(self).vault.lamports
                <= u64::MAX,
        ensures
            r is Ok <==> close_accepted(*old(self)),
            r matches Err(e) ==> *final(self) == *old(self) && e == close_rejection(*old(self)),
            r is Ok ==> ({
                &&& final(self).vault.lamports == 0
                &&& final(self).signer.lamports == old(self).signer.lamports + old(self).vault.lamports
                &&& final(self).vault_state.record is None
                &&& final(self).vault_state.address == old(self).vault_state.address
                &&& final(self).signer.address == old(self).signer.address
                &&& final(self).vault.address == old(self).vault.address
                &&& final(self).program_id == old(self).program_id
            }),
    {
        let record: VaultState = match self.vault_state.record {
            Some(st) => st,
            None => {
                return Err(VaultError::RecordNotFound);
            },
        };
        let tag_state: Vec<u8> = state_tag_bytes();
        if !matches_derivation(&tag_state, &self.signer.address, record.state_bump, &self.program_id, &self.vault_state.address) {
            return Err(VaultError::Unauthorized);
        }
        let tag_holding: Vec<u8> = vault_tag_bytes();
        if !matches_derivation(&tag_holding, &self.vault_state.address, record.vault_bump, &self.program_id, &self.vault.address) {
            return Err(VaultError::InvalidHoldingAddress);
        }
        let swept: u64 = self.vault.lamports;
        let authority = HoldingAuthority {
            state_address: self.vault_state.address,
            vault_bump: record.vault_bump,
        };
        self.transfer_from_holding(swept, authority);
        self.vault_state.record = None;
        Ok(())
    }

    /// Consumes a holding authority to sweep value out of the holding
    /// account in the owner's favour.
    fn transfer_from_holding(&mut self, amount: u64, authority: HoldingAuthority)
        requires
            amount <= old(self).vault.lamports,
            old(self).signer.lamports + amount <= u64::MAX,
            authority.state_address@ == old(self).vault_state.address@,
            address_for_bump(
                vault_tag(),
                authority.state_address@,
                authority.vault_bump,
                old(self).program_id@,
            ) == Some(old(self).vault.address@),
        ensures
            final(self).vault.lamports == old(self).vault.lamports - amount,
            final(self).signer.lamports == old(self).signer.lamports + amount,
            final(self).signer.address == old(self).signer.address,
            final(self).vault.address == old(self).vault.address,
            final(self).vault_state == old(self).vault_state,
            final(self).program_id == old(self).program_id,
    {
        self.vault.lamports = self.vault.lamports - amount;
        self.signer.lamports = self.signer.lamports + amount;
    }
}

} // verus!
