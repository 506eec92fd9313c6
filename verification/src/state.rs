//! The per-owner state record and the account slots the operations act on.

use crate::addr::Address;
use vstd::prelude::*;

verus! {

/// The state record kept for one owner: the two bump seeds completing the
/// derivation of the record's own address (from the owner identity) and of
/// the holding account's address (from the record's address). Both are
/// assigned once, at Initialize, and never change while the record exists.
#[derive(Clone, Copy, Debug, PartialEq, Eq, Structural)]
pub struct VaultState {
    /// Completes the holding-account derivation from the record's address.
    pub vault_bump: u8,
    /// Completes the record's own derivation from the owner identity.
    pub state_bump: u8,
}

/// An address holding a balance of the host's native value unit.
#[derive(Clone, Copy, Debug)]
pub struct AccountSlot {
    pub address: Address,
    pub lamports: u64,
}

/// The storage slot an owner's state record lives in: the claimed address,
/// and the record allocated there, if one exists.
#[derive(Clone, Copy, Debug)]
pub struct StateSlot {
    pub address: Address,
    pub record: Option<VaultState>,
}

} // verus!
