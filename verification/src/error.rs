//! The typed failures an operation can end in.

use vstd::prelude::*;

verus! {

/// Why an operation was refused. Every failure is terminal for that
/// operation: no state or balance change is committed alongside an error.
#[derive(Clone, Copy, Debug, PartialEq, Eq, Structural)]
pub enum VaultError {
    /// Initialize found a state record already allocated for this owner.
    AlreadyInitialized,
    /// The state record does not exist (never initialized, or closed).
    RecordNotFound,
    /// The claimed holding account does not match the address re-derived
    /// from the state record and the stored bump. Treated as a spoofing
    /// attempt and never silently corrected.
    InvalidHoldingAddress,
    /// The transfer cannot be funded: the amount is not a positive number
    /// of value units, or the debited account holds less than it.
    InsufficientFunds,
    /// The caller's identity does not re-derive the claimed state record:
    /// the caller is not the owner the record was created for.
    Unauthorized,
}

} // verus!
