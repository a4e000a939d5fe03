//! Deterministic addressing. The address of an escrow record and of its vault
//! are functions of the maker, the seed and the program, so nobody can put a
//! record or a vault of their own choosing in their place.

use vstd::prelude::*;
use vstd::bytes::{spec_u64_to_le_bytes, u64_to_le_bytes};
use anchor_lang::prelude::Pubkey;
use crate::address::Address;

verus! {

/// The error of `Pubkey::create_program_address`.
#[verifier::external_type_specification]
#[verifier::external_body]
pub struct ExPubkeyError(anchor_lang::solana_program::pubkey::PubkeyError);

/// What `Pubkey::try_find_program_address` returns for these seeds and this
/// program: the derived address and its bump, where a bump exists.
pub uninterp spec fn found_address(seeds: Seq<Seq<u8>>, program: Address) -> Option<(Address, u8)>;

/// What `Pubkey::create_program_address` returns for these seeds and this
/// program: the address, where the seeds give one.
pub uninterp spec fn created_address(seeds: Seq<Seq<u8>>, program: Address) -> Option<Address>;

/// Calls `Pubkey::try_find_program_address`. The search depends on the seeds
/// and the program alone, so its result has a name; nothing else is claimed.
#[verifier::external_body]
fn find_program_address(seeds: &Vec<Vec<u8>>, program: &Address) -> (found: Option<(Address, u8)>)
    ensures
        found == found_address(seeds.deep_view(), *program),
{
    let parts: Vec<&[u8]> = seeds.iter().map(Vec::as_slice).collect();
    match Pubkey::try_find_program_address(&parts, &Pubkey::new_from_array(program.bytes)) {
        Some((key, bump)) => Some((Address { bytes: key.to_bytes() }, bump)),
        None => None,
    }
}

/// Calls `Pubkey::create_program_address`. The result depends on the seeds and
/// the program alone, so it has a name: the address on `Ok`, none on `Err`.
#[verifier::external_body]
fn create_program_address(seeds: &Vec<Vec<u8>>, program: &Address) -> (made: Result<
    Address,
    anchor_lang::solana_program::pubkey::PubkeyError,
>)
    ensures
        made matches Ok(address) ==> created_address(seeds.deep_view(), *program) == Some(address),
        made is Err ==> created_address(seeds.deep_view(), *program) is None,
{
    let parts: Vec<&[u8]> = seeds.iter().map(Vec::as_slice).collect();
    match Pubkey::create_program_address(&parts, &Pubkey::new_from_array(program.bytes)) {
        Ok(key) => Ok(Address { bytes: key.to_bytes() }),
        Err(error) => Err(error),
    }
}

/// The bytes of the word "escrow", the first seed of every record.
pub open spec fn escrow_tag() -> Seq<u8> {
    seq![101u8, 115u8, 99u8, 114u8, 111u8, 119u8]
}

/// The bytes of the word "vault", the first seed of every vault.
pub open spec fn vault_tag() -> Seq<u8> {
    seq![118u8, 97u8, 117u8, 108u8, 116u8]
}

/// The seeds of the record that `maker` opens under `seed`.
pub open spec fn escrow_seeds(maker: Address, seed: u64) -> Seq<Seq<u8>> {
    seq![escrow_tag(), maker.bytes@, spec_u64_to_le_bytes(seed)]
}

/// The seeds with which the program signs for a record: those of the record,
/// then its bump.
pub open spec fn signer_seeds(maker: Address, seed: u64, bump: u8) -> Seq<Seq<u8>> {
    escrow_seeds(maker, seed).push(seq![bump])
}

/// The seeds of the vault that belongs to the record at `escrow`.
pub open spec fn vault_seeds(escrow: Address) -> Seq<Seq<u8>> {
    seq![vault_tag(), escrow.bytes@]
}

/// The address and bump of the record that `maker` opens under `seed`.
pub open spec fn escrow_address_of(program: Address, maker: Address, seed: u64) -> Option<(Address, u8)> {
    found_address(escrow_seeds(maker, seed), program)
}

/// The address of the vault that belongs to the record at `escrow`.
pub open spec fn vault_address_of(program: Address, escrow: Address) -> Option<Address> {
    match found_address(vault_seeds(escrow), program) {
        Some((vault, _)) => Some(vault),
        None => None,
    }
}

/// Whether the bump kept in a record reproduces the address the record is
/// stored at: the proof that the program, and nobody else, speaks for it.
pub open spec fn reproduces(program: Address, maker: Address, seed: u64, bump: u8, escrow: Address) -> bool {
    created_address(signer_seeds(maker, seed, bump), program) == Some(escrow)
}

fn escrow_tag_bytes() -> (tag: Vec<u8>)
    ensures
        tag@ == escrow_tag(),
{
    let mut tag: Vec<u8> = Vec::new();
    tag.push(101u8);
    tag.push(115u8);
    tag.push(99u8);
    tag.push(114u8);
    tag.push(111u8);
    tag.push(119u8);
    assert(tag@ =~= escrow_tag());
    tag
}

fn vault_tag_bytes() -> (tag: Vec<u8>)
    ensures
        tag@ == vault_tag(),
{
    let mut tag: Vec<u8> = Vec::new();
    tag.push(118u8);
    tag.push(97u8);
    tag.push(117u8);
    tag.push(108u8);
    tag.push(116u8);
    assert(tag@ =~= vault_tag());
    tag
}

fn escrow_seed_list(maker: &Address, seed: u64) -> (seeds: Vec<Vec<u8>>)
    ensures
        seeds.deep_view() == escrow_seeds(*maker, seed),
{
    let mut seeds: Vec<Vec<u8>> = Vec::new();
    seeds.push(escrow_tag_bytes());
    seeds.push(maker.to_vec());
    seeds.push(u64_to_le_bytes(seed));
    proof {
        let parts = seeds.deep_view();
        assert(parts.len() == 3);
        assert(parts[0] =~= escrow_tag());
        assert(parts[1] =~= maker.bytes@);
        assert(parts[2] =~= spec_u64_to_le_bytes(seed));
        assert(parts =~= escrow_seeds(*maker, seed));
    }
    seeds
}

/// Derives the address of the record that `maker` opens under `seed`, and the
/// bump that goes with it.
pub fn escrow_address(program: &Address, maker: &Address, seed: u64) -> (found: Option<(Address, u8)>)
    ensures
        found == escrow_address_of(*program, *maker, seed),
{
    let seeds = escrow_seed_list(maker, seed);
    find_program_address(&seeds, program)
}

/// Derives the address of the vault that belongs to the record at `escrow`.
pub fn vault_address(program: &Address, escrow: &Address) -> (found: Option<Address>)
    ensures
        found == vault_address_of(*program, *escrow),
{
    let mut seeds: Vec<Vec<u8>> = Vec::new();
    seeds.push(vault_tag_bytes());
    seeds.push(escrow.to_vec());
    proof {
        let parts = seeds.deep_view();
        assert(parts.len() == 2);
        assert(parts[0] =~= vault_tag());
        assert(parts[1] =~= escrow.bytes@);
        assert(parts =~= vault_seeds(*escrow));
    }
    match find_program_address(&seeds, program) {
        Some((vault, _)) => Some(vault),
        None => None,
    }
}

/// Checks that the bump kept in a record reproduces the address `escrow`.
pub fn proves_authority(program: &Address, maker: &Address, seed: u64, bump: u8, escrow: &Address) -> (proven: bool)
    ensures
        proven == reproduces(*program, *maker, seed, bump, *escrow),
{
    let mut seeds = escrow_seed_list(maker, seed);
    let ghost first = seeds.deep_view();
    assert(seeds@.len() == first.len());
    let mut last: Vec<u8> = Vec::new();
    last.push(bump);
    seeds.push(last);
    proof {
        let parts = seeds.deep_view();
        let wanted = signer_seeds(*maker, seed, bump);
        assert(parts.len() == 4);
        assert(parts[3] =~= seq![bump]);
        assert forall|i: int| 0 <= i < 4 implies parts[i] == wanted[i] by {
            if i < 3 {
                assert(parts[i] == first[i]);
            }
        }
        assert(parts =~= wanted);
    }
    match create_program_address(&seeds, program) {
        Ok(address) => address.same(escrow),
        Err(_) => false,
    }
}

} // verus!
