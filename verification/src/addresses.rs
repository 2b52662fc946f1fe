//! Deterministic sub-account address derivation. An escrow address is
//! derived from a domain tag, the maker and a caller-chosen seed; the vault
//! address is chained off the escrow address, so distinct escrows cannot
//! share a vault. The derivation itself is the ledger's collision-resistant
//! one-way construction; handlers recompute each address and reject any
//! caller-supplied account that does not match.
use crate::util::{push_bytes, Pubkey};
use vstd::prelude::*;

verus! {

/// Domain tag of escrow addresses: the bytes of "escrow".
pub open spec fn escrow_tag() -> Seq<u8> {
    seq![101u8, 115u8, 99u8, 114u8, 111u8, 119u8]
}

/// Domain tag of vault addresses: the bytes of "vault".
pub open spec fn vault_tag() -> Seq<u8> {
    seq![118u8, 97u8, 117u8, 108u8, 116u8]
}

/// Seed material of an escrow address: tag, maker, little-endian seed.
pub open spec fn escrow_seeds(maker: Seq<u8>, seed: u64) -> Seq<Seq<u8>> {
    seq![escrow_tag(), maker, vstd::bytes::spec_u64_to_le_bytes(seed)]
}

/// Seed material of a vault address: tag, escrow address.
pub open spec fn vault_seeds(escrow: Seq<u8>) -> Seq<Seq<u8>> {
    seq![vault_tag(), escrow]
}

/// The address and bump the ledger's derivation assigns to the given seed
/// material and authority, or none in the statistically improbable case
/// that no bump lands on a valid authority-only address.
pub uninterp spec fn pda_of(seeds: Seq<Seq<u8>>, program_id: Seq<u8>) -> Option<(Seq<u8>, u8)>;

/// Abstraction of a derived address and bump pair.
pub open spec fn opt_pda_view(r: Option<(Pubkey, u8)>) -> Option<(Seq<u8>, u8)> {
    match r {
        Some(p) => Some((p.0@, p.1)),
        None => None,
    }
}

/// Relies on solana_address::Address::try_find_program_address: searches
/// bump bytes from 255 downward for the first seed extension whose derived
/// address is valid for the authority alone; the result is a deterministic
/// function of the seeds and the authority, and the call does not panic.
#[verifier::external_body]
fn try_find_pda(seeds: &Vec<Vec<u8>>, program_id: &Pubkey) -> (r: Option<(Pubkey, u8)>)
    ensures
        opt_pda_view(r) == pda_of(seeds.deep_view(), program_id@),
{
    let seed_refs: Vec<&[u8]> = seeds.iter().map(|s| s.as_slice()).collect();
    let authority = solana_address::Address::new_from_array(*program_id);
    solana_address::Address::try_find_program_address(seed_refs.as_slice(), &authority).map(
        |p: (solana_address::Address, u8)| (p.0.to_bytes(), p.1),
    )
}

/// Derives the escrow address and bump for a maker and seed.
pub fn find_escrow_address(maker: &Pubkey, seed: u64, program_id: &Pubkey) -> (r: Option<
    (Pubkey, u8),
>)
    ensures
        opt_pda_view(r) == pda_of(escrow_seeds(maker@, seed), program_id@),
{
    let mut tag: Vec<u8> = Vec::new();
    tag.push(101u8);
    tag.push(115u8);
    tag.push(99u8);
    tag.push(114u8);
    tag.push(111u8);
    tag.push(119u8);
    let mut maker_bytes: Vec<u8> = Vec::new();
    push_bytes(&mut maker_bytes, maker.as_slice());
    let seed_bytes = vstd::bytes::u64_to_le_bytes(seed);
    let mut seeds: Vec<Vec<u8>> = Vec::new();
    seeds.push(tag);
    seeds.push(maker_bytes);
    seeds.push(seed_bytes);
    proof {
        assert(seeds.deep_view() =~~= escrow_seeds(maker@, seed));
    }
    try_find_pda(&seeds, program_id)
}

/// Derives the vault address and bump for an escrow address.
pub fn find_vault_address(escrow: &Pubkey, program_id: &Pubkey) -> (r: Option<(Pubkey, u8)>)
    ensures
        opt_pda_view(r) == pda_of(vault_seeds(escrow@), program_id@),
{
    let mut tag: Vec<u8> = Vec::new();
    tag.push(118u8);
    tag.push(97u8);
    tag.push(117u8);
    tag.push(108u8);
    tag.push(116u8);
    let mut escrow_bytes: Vec<u8> = Vec::new();
    push_bytes(&mut escrow_bytes, escrow.as_slice());
    let mut seeds: Vec<Vec<u8>> = Vec::new();
    seeds.push(tag);
    seeds.push(escrow_bytes);
    proof {
        assert(seeds.deep_view() =~~= vault_seeds(escrow@));
    }
    try_find_pda(&seeds, program_id)
}

} // verus!
