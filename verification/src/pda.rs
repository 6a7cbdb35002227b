//! Program-derived addresses.
//!
//! The metadata and master-edition accounts of a treasure's token live at
//! addresses derived deterministically from fixed seeds plus the owning
//! service's identity. These addresses are re-derived here rather than
//! trusted from a caller.

use vstd::prelude::*;
use crate::identity::AccountId;

verus! {

/// The program-derived address for the given seeds and owning program, as
/// the host chain's address-derivation rule computes it. The rule is a
/// digest over the seeds, the program identity and a searched-for bump
/// byte; only its determinism and its result length are stated here.
pub uninterp spec fn pda_of(seeds: Seq<Seq<u8>>, program_id: Seq<u8>) -> Seq<u8>;

/// Whether the host chain's derivation rule yields an address for the given
/// seeds and owning program. Like the address itself, this is a
/// deterministic function of the arguments alone: the rule fails exactly
/// when the seeds exceed its limits or no bump byte gives a valid address.
pub uninterp spec fn pda_found(seeds: Seq<Seq<u8>>, program_id: Seq<u8>) -> bool;

/// The bytes of the ASCII seed string "metadata".
pub open spec fn metadata_seed_bytes() -> Seq<u8> {
    seq![109u8, 101u8, 116u8, 97u8, 100u8, 97u8, 116u8, 97u8]
}

/// The bytes of the ASCII seed string "edition".
pub open spec fn edition_seed_bytes() -> Seq<u8> {
    seq![101u8, 100u8, 105u8, 116u8, 105u8, 111u8, 110u8]
}

/// The seeds of a token's metadata account: "metadata", the metadata
/// program's identity, and the mint's identity.
pub open spec fn metadata_seeds(program_id: Seq<u8>, mint: Seq<u8>) -> Seq<Seq<u8>> {
    seq![metadata_seed_bytes(), program_id, mint]
}

/// The seeds of a token's master-edition account: the metadata seeds
/// followed by "edition".
pub open spec fn master_edition_seeds(program_id: Seq<u8>, mint: Seq<u8>) -> Seq<Seq<u8>> {
    seq![metadata_seed_bytes(), program_id, mint, edition_seed_bytes()]
}

/// The ASCII bytes of "metadata", as an owned seed.
fn metadata_seed() -> (r: Vec<u8>)
    ensures
        r@ == metadata_seed_bytes(),
{
    let r: Vec<u8> = vec![109u8, 101u8, 116u8, 97u8, 100u8, 97u8, 116u8, 97u8];
    proof {
        assert(r@ =~= metadata_seed_bytes());
    }
    r
}

/// The ASCII bytes of "edition", as an owned seed.
fn edition_seed() -> (r: Vec<u8>)
    ensures
        r@ == edition_seed_bytes(),
{
    let r: Vec<u8> = vec![101u8, 100u8, 105u8, 116u8, 105u8, 111u8, 110u8];
    proof {
        assert(r@ =~= edition_seed_bytes());
    }
    r
}

/// Relies on `anchor_lang::prelude::Pubkey::try_find_program_address`: the
/// derived address, and whether one is derived at all, are deterministic
/// functions of the seeds and the owning program's identity; a derived
/// address is 32 bytes long. `None` comes exactly when the seeds exceed the
/// host's limits or when, in the statistically improbable case, no bump
/// byte yields a valid address — which is what [`pda_found`] names.
#[verifier::external_body]
fn derive_address(seeds: &Vec<Vec<u8>>, program_id: &AccountId) -> (r: Option<AccountId>)
    ensures
        r is Some <==> pda_found(seeds@.map_values(|s: Vec<u8>| s@), program_id@),
        r is Some ==> r.unwrap()@ == pda_of(
            seeds@.map_values(|s: Vec<u8>| s@),
            program_id@,
        ) && r.unwrap()@.len() == 32,
{
    let pid = anchor_lang::prelude::Pubkey::new_from_array(program_id.0);
    let seed_slices: Vec<&[u8]> = seeds.iter().map(|s| s.as_slice()).collect();
    let found = anchor_lang::prelude::Pubkey::try_find_program_address(&seed_slices, &pid);
    found.map(|(addr, _bump)| AccountId(addr.to_bytes()))
}

/// The address of the metadata account of `mint`, derived from the fixed
/// seeds and the metadata program's identity. `None` exactly when the
/// derivation rule yields no address for these seeds — statistically
/// improbable, and a fixed fact of the mint and program identities.
pub fn metadata_address(mint: &AccountId, metadata_program: &AccountId) -> (r: Option<AccountId>)
    ensures
        r is Some <==> pda_found(metadata_seeds(metadata_program@, mint@), metadata_program@),
        r is Some ==> r.unwrap()@ == pda_of(
            metadata_seeds(metadata_program@, mint@),
            metadata_program@,
        ),
{
    let mut seeds: Vec<Vec<u8>> = Vec::new();
    seeds.push(metadata_seed());
    seeds.push(metadata_program.to_vec());
    seeds.push(mint.to_vec());
    proof {
        assert(seeds@.map_values(|s: Vec<u8>| s@) =~= metadata_seeds(metadata_program@, mint@));
    }
    derive_address(&seeds, metadata_program)
}

/// The address of the master-edition account of `mint`, derived from the
/// fixed seeds and the metadata program's identity. `None` exactly when the
/// derivation rule yields no address for these seeds — statistically
/// improbable, and a fixed fact of the mint and program identities.
pub fn master_edition_address(mint: &AccountId, metadata_program: &AccountId) -> (r: Option<
    AccountId,
>)
    ensures
        r is Some <==> pda_found(
            master_edition_seeds(metadata_program@, mint@),
            metadata_program@,
        ),
        r is Some ==> r.unwrap()@ == pda_of(
            master_edition_seeds(metadata_program@, mint@),
            metadata_program@,
        ),
{
    let mut seeds: Vec<Vec<u8>> = Vec::new();
    seeds.push(metadata_seed());
    seeds.push(metadata_program.to_vec());
    seeds.push(mint.to_vec());
    seeds.push(edition_seed());
    proof {
        assert(seeds@.map_values(|s: Vec<u8>| s@) =~= master_edition_seeds(
            metadata_program@,
            mint@,
        ));
    }
    derive_address(&seeds, metadata_program)
}

} // verus!
