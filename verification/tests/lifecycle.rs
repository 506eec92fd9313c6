//! The vault lifecycle, run against the host's real address derivation.

use vault::{
    addr_eq, close, deposit, derive_holding_address, derive_state_address, initialize, withdraw,
    AccountSlot, Address, Close, Deposit, Initialize, StateSlot, VaultError, VaultState, Withdraw,
};

fn program_id() -> Address {
    Address { bytes: [7u8; 32] }
}

fn owner_a() -> Address {
    Address { bytes: [1u8; 32] }
}

fn owner_b() -> Address {
    Address { bytes: [2u8; 32] }
}

/// The two canonical addresses for an owner under the test program id.
fn derive_pair(owner: &Address) -> (Address, Address) {
    let program = program_id();
    let (state_addr, _) = derive_state_address(owner, &program).unwrap();
    let (holding_addr, _) = derive_holding_address(&state_addr, &program).unwrap();
    (state_addr, holding_addr)
}

/// A fresh, never-initialized account set for an owner with the given
/// balance, with the correctly derived state and holding addresses.
fn fresh_accounts(owner: &Address, balance: u64) -> Initialize {
    let (state_addr, holding_addr) = derive_pair(owner);
    Initialize {
        program_id: program_id(),
        signer: AccountSlot { address: *owner, lamports: balance },
        vault: AccountSlot { address: holding_addr, lamports: 0 },
        vault_state: StateSlot { address: state_addr, record: None },
    }
}

fn as_deposit(ctx: &Initialize) -> Deposit {
    Deposit {
        program_id: ctx.program_id,
        signer: ctx.signer,
        vault: ctx.vault,
        vault_state: ctx.vault_state,
    }
}

fn as_withdraw(ctx: &Deposit) -> Withdraw {
    Withdraw {
        program_id: ctx.program_id,
        signer: ctx.signer,
        vault: ctx.vault,
        vault_state: ctx.vault_state,
    }
}

fn as_close(ctx: &Withdraw) -> Close {
    Close {
        program_id: ctx.program_id,
        signer: ctx.signer,
        vault: ctx.vault,
        vault_state: ctx.vault_state,
    }
}

#[test]
fn derivation_is_stable() {
    let owner = owner_a();
    let program = program_id();
    let (a1, b1) = derive_state_address(&owner, &program).unwrap();
    let (a2, b2) = derive_state_address(&owner, &program).unwrap();
    assert!(addr_eq(&a1, &a2));
    assert_eq!(b1, b2);
    let (h1, hb1) = derive_holding_address(&a1, &program).unwrap();
    let (h2, hb2) = derive_holding_address(&a2, &program).unwrap();
    assert!(addr_eq(&h1, &h2));
    assert_eq!(hb1, hb2);
}

#[test]
fn derivation_separates_owners() {
    let (state_a, holding_a) = derive_pair(&owner_a());
    let (state_b, holding_b) = derive_pair(&owner_b());
    assert!(!addr_eq(&state_a, &state_b));
    assert!(!addr_eq(&holding_a, &holding_b));
}

#[test]
fn derivation_leaves_the_input() {
    // The derived addresses are new addresses, not the inputs handed back.
    let owner = owner_a();
    let program = program_id();
    let (state_addr, _) = derive_state_address(&owner, &program).unwrap();
    assert!(!addr_eq(&state_addr, &owner));
    assert!(!addr_eq(&state_addr, &program));
    let (holding_addr, _) = derive_holding_address(&state_addr, &program).unwrap();
    assert!(!addr_eq(&holding_addr, &state_addr));
    assert!(!addr_eq(&holding_addr, &owner));
}

#[test]
fn initialize_writes_the_record() {
    let mut ctx = fresh_accounts(&owner_a(), 1_000);
    assert_eq!(initialize(&mut ctx), Ok(()));
    let record = ctx.vault_state.record.expect("record written");
    let program = program_id();
    let (_, state_bump) = derive_state_address(&owner_a(), &program).unwrap();
    let (_, vault_bump) = derive_holding_address(&ctx.vault_state.address, &program).unwrap();
    assert_eq!(record, VaultState { vault_bump, state_bump });
    assert_eq!(ctx.signer.lamports, 1_000);
    assert_eq!(ctx.vault.lamports, 0);
}

#[test]
fn reinitialize_fails() {
    let mut ctx = fresh_accounts(&owner_a(), 1_000);
    assert_eq!(initialize(&mut ctx), Ok(()));
    let record_before = ctx.vault_state.record;
    assert_eq!(initialize(&mut ctx), Err(VaultError::AlreadyInitialized));
    assert_eq!(ctx.vault_state.record, record_before);
}

#[test]
fn initialize_refuses_wrong_state_address() {
    let mut ctx = fresh_accounts(&owner_a(), 1_000);
    // Claim another owner's state slot.
    let (state_b, _) = derive_pair(&owner_b());
    ctx.vault_state.address = state_b;
    assert_eq!(initialize(&mut ctx), Err(VaultError::Unauthorized));
    assert!(ctx.vault_state.record.is_none());
}

#[test]
fn initialize_refuses_wrong_holding_address() {
    let mut ctx = fresh_accounts(&owner_a(), 1_000);
    // Claim another owner's holding account.
    let (_, holding_b) = derive_pair(&owner_b());
    ctx.vault.address = holding_b;
    assert_eq!(initialize(&mut ctx), Err(VaultError::InvalidHoldingAddress));
    assert!(ctx.vault_state.record.is_none());
}

#[test]
fn deposit_zero_fails() {
    let mut ctx = fresh_accounts(&owner_a(), 1_000);
    assert_eq!(initialize(&mut ctx), Ok(()));
    let mut dep = as_deposit(&ctx);
    assert_eq!(deposit(&mut dep, 0), Err(VaultError::InsufficientFunds));
    assert_eq!(dep.vault.lamports, 0);
    assert_eq!(dep.signer.lamports, 1_000);
}

#[test]
fn anyone_may_fund_a_vault() {
    let mut ctx = fresh_accounts(&owner_a(), 1_000);
    assert_eq!(initialize(&mut ctx), Ok(()));
    let mut dep = as_deposit(&ctx);
    // Owner B funds A's vault: the credit lands in the holding account
    // bound to A's record.
    dep.signer = AccountSlot { address: owner_b(), lamports: 500 };
    assert_eq!(deposit(&mut dep, 200), Ok(()));
    assert_eq!(dep.vault.lamports, 200);
    assert_eq!(dep.signer.lamports, 300);
    // Only the owner can move it out again.
    let mut wdr = as_withdraw(&dep);
    assert_eq!(withdraw(&mut wdr, 200), Err(VaultError::Unauthorized));
    wdr.signer = AccountSlot { address: owner_a(), lamports: 1_000 };
    assert_eq!(withdraw(&mut wdr, 200), Ok(()));
    assert_eq!(wdr.vault.lamports, 0);
    assert_eq!(wdr.signer.lamports, 1_200);
}

#[test]
fn deposit_adds_exactly_the_amount() {
    let mut ctx = fresh_accounts(&owner_a(), 1_000);
    assert_eq!(initialize(&mut ctx), Ok(()));
    let mut dep = as_deposit(&ctx);
    assert_eq!(deposit(&mut dep, 250), Ok(()));
    assert_eq!(dep.vault.lamports, 250);
    assert_eq!(dep.signer.lamports, 750);
    assert_eq!(deposit(&mut dep, 1), Ok(()));
    assert_eq!(dep.vault.lamports, 251);
    assert_eq!(dep.signer.lamports, 749);
}

#[test]
fn deposit_needs_a_funded_caller() {
    let mut ctx = fresh_accounts(&owner_a(), 100);
    assert_eq!(initialize(&mut ctx), Ok(()));
    let mut dep = as_deposit(&ctx);
    assert_eq!(deposit(&mut dep, 101), Err(VaultError::InsufficientFunds));
    assert_eq!(dep.vault.lamports, 0);
    assert_eq!(dep.signer.lamports, 100);
}

#[test]
fn deposit_without_record_fails() {
    let ctx = fresh_accounts(&owner_a(), 1_000);
    let mut dep = as_deposit(&ctx);
    assert_eq!(deposit(&mut dep, 50), Err(VaultError::RecordNotFound));
    assert_eq!(dep.vault.lamports, 0);
    assert_eq!(dep.signer.lamports, 1_000);
}

#[test]
fn deposit_refuses_a_spoofed_holding_account() {
    let mut ctx = fresh_accounts(&owner_a(), 1_000);
    assert_eq!(initialize(&mut ctx), Ok(()));
    let mut dep = as_deposit(&ctx);
    // Swap in an arbitrary account as the deposit target.
    dep.vault.address = Address { bytes: [9u8; 32] };
    assert_eq!(deposit(&mut dep, 50), Err(VaultError::InvalidHoldingAddress));
    assert_eq!(dep.signer.lamports, 1_000);
}

#[test]
fn withdraw_more_than_balance_fails() {
    let mut ctx = fresh_accounts(&owner_a(), 1_000);
    assert_eq!(initialize(&mut ctx), Ok(()));
    let mut dep = as_deposit(&ctx);
    assert_eq!(deposit(&mut dep, 300), Ok(()));
    let mut wdr = as_withdraw(&dep);
    assert_eq!(withdraw(&mut wdr, 301), Err(VaultError::InsufficientFunds));
    assert_eq!(wdr.vault.lamports, 300);
    assert_eq!(wdr.signer.lamports, 700);
    assert_eq!(withdraw(&mut wdr, 300), Ok(()));
    assert_eq!(wdr.vault.lamports, 0);
    assert_eq!(wdr.signer.lamports, 1_000);
}

#[test]
fn withdraw_by_another_identity_fails() {
    let mut ctx = fresh_accounts(&owner_a(), 1_000);
    assert_eq!(initialize(&mut ctx), Ok(()));
    let mut dep = as_deposit(&ctx);
    assert_eq!(deposit(&mut dep, 300), Ok(()));
    let mut wdr = as_withdraw(&dep);
    // Owner B signs, claiming A's record and holding account.
    wdr.signer = AccountSlot { address: owner_b(), lamports: 50 };
    assert_eq!(withdraw(&mut wdr, 100), Err(VaultError::Unauthorized));
    assert_eq!(wdr.vault.lamports, 300);
    assert_eq!(wdr.signer.lamports, 50);
}

#[test]
fn close_sweeps_and_removes_the_record() {
    let mut ctx = fresh_accounts(&owner_a(), 1_000);
    assert_eq!(initialize(&mut ctx), Ok(()));
    let mut dep = as_deposit(&ctx);
    assert_eq!(deposit(&mut dep, 300), Ok(()));
    let wdr = as_withdraw(&dep);
    let mut cls = as_close(&wdr);
    assert_eq!(close(&mut cls), Ok(()));
    assert_eq!(cls.vault.lamports, 0);
    assert_eq!(cls.signer.lamports, 1_000);
    assert!(cls.vault_state.record.is_none());
    // The record is gone: a further withdraw no longer resolves it.
    let mut after = Withdraw {
        program_id: cls.program_id,
        signer: cls.signer,
        vault: cls.vault,
        vault_state: cls.vault_state,
    };
    assert_eq!(withdraw(&mut after, 1), Err(VaultError::RecordNotFound));
    // And a second close fails the same way.
    assert_eq!(close(&mut cls), Err(VaultError::RecordNotFound));
}

#[test]
fn end_to_end_lifecycle() {
    let mut ctx = fresh_accounts(&owner_a(), 1_000);
    assert_eq!(initialize(&mut ctx), Ok(()));
    let mut dep = as_deposit(&ctx);
    assert_eq!(deposit(&mut dep, 100), Ok(()));
    let mut wdr = as_withdraw(&dep);
    assert_eq!(withdraw(&mut wdr, 40), Ok(()));
    assert_eq!(wdr.vault.lamports, 60);
    let before_close = wdr.signer.lamports;
    let mut cls = as_close(&wdr);
    assert_eq!(close(&mut cls), Ok(()));
    assert_eq!(cls.signer.lamports, before_close + 60);
    assert_eq!(cls.vault.lamports, 0);
    assert!(cls.vault_state.record.is_none());
}

#[test]
fn two_owners_stay_apart() {
    let mut ctx_a = fresh_accounts(&owner_a(), 1_000);
    let mut ctx_b = fresh_accounts(&owner_b(), 1_000);
    assert_eq!(initialize(&mut ctx_a), Ok(()));
    assert_eq!(initialize(&mut ctx_b), Ok(()));
    assert!(!addr_eq(&ctx_a.vault_state.address, &ctx_b.vault_state.address));
    assert!(!addr_eq(&ctx_a.vault.address, &ctx_b.vault.address));
    // A deposit into A's vault leaves B's untouched.
    let mut dep_a = as_deposit(&ctx_a);
    assert_eq!(deposit(&mut dep_a, 500), Ok(()));
    assert_eq!(dep_a.vault.lamports, 500);
    assert_eq!(ctx_b.vault.lamports, 0);
}

#[test]
fn reinitialize_after_close_reproduces_the_bumps() {
    let mut ctx = fresh_accounts(&owner_a(), 1_000);
    assert_eq!(initialize(&mut ctx), Ok(()));
    let first_record = ctx.vault_state.record.unwrap();
    let mut dep = as_deposit(&ctx);
    assert_eq!(deposit(&mut dep, 300), Ok(()));
    let wdr = as_withdraw(&dep);
    let mut cls = as_close(&wdr);
    assert_eq!(close(&mut cls), Ok(()));
    // A fresh lifecycle for the same owner derives the same addresses and
    // the same bumps.
    let mut again = Initialize {
        program_id: cls.program_id,
        signer: cls.signer,
        vault: cls.vault,
        vault_state: cls.vault_state,
    };
    assert_eq!(initialize(&mut again), Ok(()));
    assert_eq!(again.vault_state.record.unwrap(), first_record);
}
