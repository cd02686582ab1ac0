//! Derived addresses: where the records of an owner, and of a user who
//! follows a master trader, are stored.
//!
//! An address is derived from a list of seeds and the identity of the
//! program that owns the records. The derivation itself is the work of the
//! runtime's library; this module fixes the seeds of each kind of record
//! and asks for the address.

use vstd::prelude::*;
use vstd::string::StringSliceAdditionalSpecFns;
use anchor_lang::prelude::Pubkey;
use crate::address::Address;

verus! {

/// The address and bump seed that the runtime derives from `seeds` for the
/// program `program_id`, if it derives one. It stands for what
/// `Pubkey::try_find_program_address` computes, which depends on nothing
/// but the bytes of its arguments.
pub uninterp spec fn program_address(seeds: Seq<Seq<u8>>, program_id: Seq<u8>) -> Option<
    (Seq<u8>, u8),
>;

/// The seeds, each as its bytes.
pub open spec fn seeds_view(seeds: Seq<&[u8]>) -> Seq<Seq<u8>> {
    seeds.map_values(|seed: &[u8]| seed@)
}

/// A derived address and its bump seed, the address as its bytes.
pub open spec fn found_view(found: Option<(Address, u8)>) -> Option<(Seq<u8>, u8)> {
    match found {
        Some((address, bump)) => Some((address@, bump)),
        None => None,
    }
}

/// Trusted: calls `Pubkey::try_find_program_address` of solana-program, as
/// anchor-lang re-exports it, on the seeds and on the program's identity
/// turned into a `Pubkey`, and hands back the address it found as an
/// `Address`, with the bump seed. The contract claims only that the result
/// is the one that `program_address` names; nothing is proved of the
/// derivation.
#[verifier::external_body]
fn find_program_address(seeds: &Vec<&[u8]>, program_id: &Address) -> (found: Option<(Address, u8)>)
    ensures
        found_view(found) == program_address(seeds_view(seeds@), program_id@),
{
    let program = Pubkey::new_from_array(program_id.bytes);
    let found = Pubkey::try_find_program_address(seeds.as_slice(), &program);
    found.map(|(address, bump)| (Address { bytes: address.to_bytes() }, bump))
}

/// The seeds of an owner's ledger account.
pub open spec fn user_funds_seeds(owner: Address) -> Seq<Seq<u8>> {
    seq!["user_funds".spec_bytes(), owner@]
}

/// The seeds of the record of `user` following `master_trader`.
pub open spec fn follower_seeds(user: Address, master_trader: Address) -> Seq<Seq<u8>> {
    seq!["follower".spec_bytes(), user@, master_trader@]
}

/// The seeds of the escrow vault of `user` following `master_trader`.
pub open spec fn vault_seeds(user: Address, master_trader: Address) -> Seq<Seq<u8>> {
    seq!["vault".spec_bytes(), user@, master_trader@]
}

/// The address of the ledger account of `owner` under the program
/// `program_id`, with its bump seed; `None` where the runtime derives none.
pub fn user_funds_address(program_id: &Address, owner: &Address) -> (found: Option<(Address, u8)>)
    ensures
        found_view(found) == program_address(user_funds_seeds(*owner), program_id@),
{
    let mut seeds: Vec<&[u8]> = Vec::new();
    seeds.push("user_funds".as_bytes());
    seeds.push(owner.bytes.as_slice());
    assert(seeds_view(seeds@) =~= user_funds_seeds(*owner));
    find_program_address(&seeds, program_id)
}

/// The address of the record of `user` following `master_trader` under the
/// program `program_id`, with its bump seed; `None` where the runtime
/// derives none.
pub fn follower_address(program_id: &Address, user: &Address, master_trader: &Address) -> (found:
    Option<(Address, u8)>)
    ensures
        found_view(found) == program_address(follower_seeds(*user, *master_trader), program_id@),
{
    let mut seeds: Vec<&[u8]> = Vec::new();
    seeds.push("follower".as_bytes());
    seeds.push(user.bytes.as_slice());
    seeds.push(master_trader.bytes.as_slice());
    assert(seeds_view(seeds@) =~= follower_seeds(*user, *master_trader));
    find_program_address(&seeds, program_id)
}

/// The address of the escrow vault of `user` following `master_trader`
/// under the program `program_id`, with its bump seed; `None` where the
/// runtime derives none. The vault is its own authority: no user key can
/// spend from it.
pub fn vault_address(program_id: &Address, user: &Address, master_trader: &Address) -> (found:
    Option<(Address, u8)>)
    ensures
        found_view(found) == program_address(vault_seeds(*user, *master_trader), program_id@),
{
    let mut seeds: Vec<&[u8]> = Vec::new();
    seeds.push("vault".as_bytes());
    seeds.push(user.bytes.as_slice());
    seeds.push(master_trader.bytes.as_slice());
    assert(seeds_view(seeds@) =~= vault_seeds(*user, *master_trader));
    find_program_address(&seeds, program_id)
}

} // verus!
