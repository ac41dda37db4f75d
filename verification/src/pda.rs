//! Deterministically derived addresses.
//!
//! Related objects are bound together by addresses computed from fixed seed
//! bytes and the owning program's identity, with no corresponding private
//! key. A derived address is always recomputed and compared; a
//! caller-supplied address is never trusted on its own.

use vstd::prelude::*;
use vstd::bytes::{spec_u64_to_le_bytes, u64_to_le_bytes};
use crate::addr::Address;
use crate::codec::push_address;

verus! {

/// What the host's address derivation returns for given seeds and program
/// identity: the derived address and its bump seed, or nothing when no bump
/// yields a valid address or a seed limit is exceeded. The result depends on
/// the seeds and the program identity alone.
pub uninterp spec fn spec_program_address(seeds: Seq<Seq<u8>>, program_id: Seq<u8>) -> Option<
    (Seq<u8>, u8),
>;

/// Relies on solana_program's `Pubkey::try_find_program_address`: a pure
/// derivation from the seed slices and the program id, returning `None` in
/// the statistically improbable event that no bump seed works, or when a
/// seed limit is exceeded. It never panics.
#[verifier::external_body]
fn derive_program_address(seeds: &Vec<Vec<u8>>, program_id: &Address) -> (r: Option<(Address, u8)>)
    ensures
        (match r {
            Some(p) => Some((p.0@, p.1)),
            None => None,
        }) == spec_program_address(seeds@.map_values(|v: Vec<u8>| v@), program_id@),
{
    let seed_refs: Vec<&[u8]> = seeds.iter().map(|v| v.as_slice()).collect();
    let pk = solana_program::pubkey::Pubkey::new_from_array(program_id.bytes);
    solana_program::pubkey::Pubkey::try_find_program_address(&seed_refs, &pk).map(
        |p: (solana_program::pubkey::Pubkey, u8)| (Address { bytes: p.0.to_bytes() }, p.1),
    )
}

/// The seed tag of raffle objects: the bytes of "raffle".
pub open spec fn spec_raffle_tag() -> Seq<u8> {
    seq![114u8, 97u8, 102u8, 102u8, 108u8, 101u8]
}

/// The seed tag of allocation objects: the bytes of "entry".
pub open spec fn spec_entry_tag() -> Seq<u8> {
    seq![101u8, 110u8, 116u8, 114u8, 121u8]
}

/// The seeds a raffle's address is derived from.
pub open spec fn spec_raffle_seeds(raffle_id: u64) -> Seq<Seq<u8>> {
    seq![spec_raffle_tag(), spec_u64_to_le_bytes(raffle_id)]
}

/// The seeds a purchaser's allocation address is derived from.
pub open spec fn spec_entry_seeds(raffle_id: u64, user: Seq<u8>) -> Seq<Seq<u8>> {
    seq![spec_entry_tag(), spec_u64_to_le_bytes(raffle_id), user]
}

/// The seeds the winning allocation's address is derived from: the raffle's
/// own address and the winning ticket index.
pub open spec fn spec_winner_entry_seeds(raffle_addr: Seq<u8>, winner_index: u64) -> Seq<Seq<u8>> {
    seq![spec_entry_tag(), raffle_addr, spec_u64_to_le_bytes(winner_index)]
}

/// The bytes of "raffle" as a seed.
fn raffle_tag_bytes() -> (tag: Vec<u8>)
    ensures
        tag@ == spec_raffle_tag(),
{
    let tag: Vec<u8> = vec![114u8, 97u8, 102u8, 102u8, 108u8, 101u8];
    proof {
        assert(tag@ =~= spec_raffle_tag());
    }
    tag
}

/// The bytes of "entry" as a seed.
fn entry_tag_bytes() -> (tag: Vec<u8>)
    ensures
        tag@ == spec_entry_tag(),
{
    let tag: Vec<u8> = vec![101u8, 110u8, 116u8, 114u8, 121u8];
    proof {
        assert(tag@ =~= spec_entry_tag());
    }
    tag
}

/// Derives the address of the raffle object with the given identifier.
pub fn find_raffle_address(program_id: &Address, raffle_id: u64) -> (r: Option<(Address, u8)>)
    ensures
        (match r {
            Some(p) => Some((p.0@, p.1)),
            None => None,
        }) == spec_program_address(spec_raffle_seeds(raffle_id), program_id@),
{
    let mut seeds: Vec<Vec<u8>> = Vec::new();
    seeds.push(raffle_tag_bytes());
    seeds.push(u64_to_le_bytes(raffle_id));
    proof {
        assert(seeds@.map_values(|v: Vec<u8>| v@) =~~= spec_raffle_seeds(raffle_id));
    }
    derive_program_address(&seeds, program_id)
}

/// Derives the address of `user`'s allocation object in the raffle with the
/// given identifier.
pub fn find_entry_address(program_id: &Address, raffle_id: u64, user: &Address) -> (r: Option<
    (Address, u8),
>)
    ensures
        (match r {
            Some(p) => Some((p.0@, p.1)),
            None => None,
        }) == spec_program_address(spec_entry_seeds(raffle_id, user@), program_id@),
{
    let mut user_bytes: Vec<u8> = Vec::new();
    push_address(&mut user_bytes, user);
    let mut seeds: Vec<Vec<u8>> = Vec::new();
    seeds.push(entry_tag_bytes());
    seeds.push(u64_to_le_bytes(raffle_id));
    seeds.push(user_bytes);
    proof {
        assert(seeds@.map_values(|v: Vec<u8>| v@) =~~= spec_entry_seeds(raffle_id, user@));
    }
    derive_program_address(&seeds, program_id)
}

/// Derives the address the winning allocation must stand at, from the
/// raffle's address and the winning ticket index.
pub fn find_winner_entry_address(
    program_id: &Address,
    raffle_addr: &Address,
    winner_index: u64,
) -> (r: Option<(Address, u8)>)
    ensures
        (match r {
            Some(p) => Some((p.0@, p.1)),
            None => None,
        }) == spec_program_address(
            spec_winner_entry_seeds(raffle_addr@, winner_index),
            program_id@,
        ),
{
    let mut raffle_bytes: Vec<u8> = Vec::new();
    push_address(&mut raffle_bytes, raffle_addr);
    let mut seeds: Vec<Vec<u8>> = Vec::new();
    seeds.push(entry_tag_bytes());
    seeds.push(raffle_bytes);
    seeds.push(u64_to_le_bytes(winner_index));
    proof {
        assert(seeds@.map_values(|v: Vec<u8>| v@) =~~= spec_winner_entry_seeds(
            raffle_addr@,
            winner_index,
        ));
    }
    derive_program_address(&seeds, program_id)
}

} // verus!
