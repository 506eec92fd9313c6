//! Address derivation.
//!
//! Every account the vault touches lives at an address derived from a fixed
//! domain tag, one derivation input and the program id. The host addressing
//! scheme performs the derivation; this module wraps it and exposes the
//! checks the operations build on: deriving the canonical address (with its
//! bump seed) and re-deriving an address from a stored bump to verify a
//! claimed account.

use anchor_lang::solana_program::pubkey::Pubkey;
use vstd::prelude::*;

verus! {

/// A 32-byte account address. Owner identities, the program id and all
/// derived addresses share this shape; the vault only compares addresses
/// and feeds them back into derivation.
#[derive(Clone, Copy, Debug)]
pub struct Address {
    pub bytes: [u8; 32],
}

impl View for Address {
    type V = Seq<u8>;

    open spec fn view(&self) -> Seq<u8> {
        self.bytes@
    }
}

/// The domain tag binding a state record to its owner: the bytes of
/// `"state"`.
pub open spec fn state_tag() -> Seq<u8> {
    seq![115u8, 116u8, 97u8, 116u8, 101u8]
}

/// The domain tag binding a holding account to its state record: the bytes
/// of `"vault"`.
pub open spec fn vault_tag() -> Seq<u8> {
    seq![118u8, 97u8, 117u8, 108u8, 116u8]
}

/// The canonical derivation for `(tag, input)` under `program`: the address
/// and bump seed the host's search returns, if any. A pure function of its
/// arguments; what it evaluates to on given bytes is known only by calling
/// the host primitive.
pub uninterp spec fn derivation_of(tag: Seq<u8>, input: Seq<u8>, program: Seq<u8>) -> Option<(Seq<u8>, u8)>;

/// The address the host re-derives from `(tag, input, bump)` under
/// `program`, or None when that triple derives no valid address. A pure
/// function of its arguments.
pub uninterp spec fn address_for_bump(tag: Seq<u8>, input: Seq<u8>, bump: u8, program: Seq<u8>) -> Option<Seq<u8>>;

/// The documented bond between the two derivation primitives: the canonical
/// pair, when it exists, re-derives to exactly its own address.
pub open spec fn derivation_consistent(tag: Seq<u8>, input: Seq<u8>, program: Seq<u8>) -> bool {
    derivation_of(tag, input, program) matches Some(p)
        ==> address_for_bump(tag, input, p.1, program) == Some(p.0)
}

/// Relies on `Pubkey::try_find_program_address` (anchor_lang's re-export of
/// solana-pubkey): starting from the largest bump seed, it returns the first
/// `(address, bump)` accepted by `Pubkey::create_program_address` for the
/// seeds `[tag, input, [bump]]`, or None when no bump is accepted. The
/// result depends only on the seeds and the program id.
#[verifier::external_body]
fn find_derived(tag: &Vec<u8>, input: &Address, program: &Address) -> (r: Option<(Address, u8)>)
    ensures
        r matches Some(p) ==> ({
            &&& derivation_of(tag@, input@, program@) == Some((p.0@, p.1))
            &&& address_for_bump(tag@, input@, p.1, program@) == Some(p.0@)
            &&& p.0@.len() == 32
        }),
        r is None ==> derivation_of(tag@, input@, program@) is None,
{
    let program_key = Pubkey::new_from_array(program.bytes);
    let found = Pubkey::try_find_program_address(&[tag.as_slice(), &input.bytes], &program_key);
    found.map(|(key, bump)| (Address { bytes: key.to_bytes() }, bump))
}

/// Relies on `Pubkey::create_program_address` (anchor_lang's re-export of
/// solana-pubkey): it hashes the seeds `[tag, input, [bump]]` with the
/// program id into an address, refusing seeds over the length limits and
/// hashes that land on the ed25519 curve. The result depends only on the
/// seeds and the program id.
#[verifier::external_body]
fn create_derived(tag: &Vec<u8>, input: &Address, bump: u8, program: &Address) -> (r: Option<Address>)
    ensures
        r matches Some(a) ==> address_for_bump(tag@, input@, bump, program@) == Some(a@) && a@.len() == 32,
        r is None ==> address_for_bump(tag@, input@, bump, program@) is None,
{
    let program_key = Pubkey::new_from_array(program.bytes);
    let bump_seed = [bump];
    match Pubkey::create_program_address(&[tag.as_slice(), &input.bytes, &bump_seed], &program_key) {
        Ok(key) => Some(Address { bytes: key.to_bytes() }),
        Err(_) => None,
    }
}

/// The bytes of the state domain tag, as derivation seeds.
pub fn state_tag_bytes() -> (r: Vec<u8>)
    ensures
        r@ == state_tag(),
{
    let mut tag: Vec<u8> = Vec::new();
    tag.push(115u8);
    tag.push(116u8);
    tag.push(97u8);
    tag.push(116u8);
    tag.push(101u8);
    proof {
        assert(tag@ =~= state_tag());
    }
    tag
}

/// The bytes of the holding domain tag, as derivation seeds.
pub fn vault_tag_bytes() -> (r: Vec<u8>)
    ensures
        r@ == vault_tag(),
{
    let mut tag: Vec<u8> = Vec::new();
    tag.push(118u8);
    tag.push(97u8);
    tag.push(117u8);
    tag.push(108u8);
    tag.push(116u8);
    proof {
        assert(tag@ =~= vault_tag());
    }
    tag
}

/// Byte-for-byte address equality.
pub fn addr_eq(a: &Address, b: &Address) -> (r: bool)
    ensures
        r == (a@ == b@),
{
    let mut i: usize = 0;
    while i < 32
        invariant
            i <= 32,
            forall|j: int| 0 <= j < i ==> a.bytes@[j] == b.bytes@[j],
        decreases 32 - i,
    {
        if a.bytes[i] != b.bytes[i] {
            assert(a@[i as int] != b@[i as int]);
            return false;
        }
        i = i + 1;
    }
    proof {
        assert(a@ =~= b@);
    }
    true
}

/// Re-derives the address for `(tag, input, bump)` and compares it with the
/// claimed address: the anti-spoofing check every operation runs before it
/// trusts a caller-supplied account.
pub fn matches_derivation(tag: &Vec<u8>, input: &Address, bump: u8, program: &Address, claimed: &Address) -> (r: bool)
    ensures
        r == (address_for_bump(tag@, input@, bump, program@) == Some(claimed@)),
{
    match create_derived(tag, input, bump, program) {
        Some(derived) => addr_eq(&derived, claimed),
        None => false,
    }
}

/// The canonical state-record derivation for an owner: the address the
/// owner's record must live at, and the bump that completes it. Stable:
/// the result is a function of the owner and the program id alone.
pub fn derive_state_address(owner: &Address, program: &Address) -> (r: Option<(Address, u8)>)
    ensures
        r matches Some(p) ==> ({
            &&& derivation_of(state_tag(), owner@, program@) == Some((p.0@, p.1))
            &&& address_for_bump(state_tag(), owner@, p.1, program@) == Some(p.0@)
        }),
        r is None ==> derivation_of(state_tag(), owner@, program@) is None,
{
    let tag = state_tag_bytes();
    find_derived(&tag, owner, program)
}

/// The canonical holding-account derivation for a state record: the address
/// the record's holding account must live at, and the bump that completes
/// it. Stable in the same way as `derive_state_address`.
pub fn derive_holding_address(state_address: &Address, program: &Address) -> (r: Option<(Address, u8)>)
    ensures
        r matches Some(p) ==> ({
            &&& derivation_of(vault_tag(), state_address@, program@) == Some((p.0@, p.1))
            &&& address_for_bump(vault_tag(), state_address@, p.1, program@) == Some(p.0@)
        }),
        r is None ==> derivation_of(vault_tag(), state_address@, program@) is None,
{
    let tag = vault_tag_bytes();
    find_derived(&tag, state_address, program)
}

} // verus!
