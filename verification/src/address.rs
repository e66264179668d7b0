//! Derived addresses: where the protocol's own accounts live, and the
//! keyless authority that moves the vault.
use vstd::prelude::*;
use crate::identity::Identity;
use crate::seeds::{
    bump_seed, seed_vec, ESCROW_PDA_SEED, ESCROW_SEED, METADATA_PREFIX, METADATA_PROGRAM, VAULT_SEED,
};
use anchor_lang::prelude::Pubkey;
use std::str::FromStr;

verus! {

/// What `Pubkey::from_str` makes of a string: the identity it spells in
/// base 58, or nothing where it spells none.
pub uninterp spec fn parsed_identity(text: Seq<char>) -> Option<Seq<u8>>;

/// What `Pubkey::try_find_program_address` derives from seeds and a program
/// identity: an address and the bump that completes the seeds, or nothing.
pub uninterp spec fn found_program_address(seeds: Seq<Seq<u8>>, program_id: Seq<u8>) -> Option<
    (Seq<u8>, u8),
>;

/// What `Pubkey::create_program_address` derives from seeds that already end
/// in a bump: an address, or nothing where the seeds give none.
pub uninterp spec fn created_program_address(seeds: Seq<Seq<u8>>, program_id: Seq<u8>) -> Option<
    Seq<u8>,
>;

/// The bytes of an optional identity.
pub open spec fn identity_bytes(id: Option<Identity>) -> Option<Seq<u8>> {
    match id {
        Some(id) => Some(id@),
        None => None,
    }
}

/// The bytes of an optional address with its bump.
pub open spec fn address_bytes(found: Option<(Identity, u8)>) -> Option<(Seq<u8>, u8)> {
    match found {
        Some((id, bump)) => Some((id@, bump)),
        None => None,
    }
}

/// The seeds as sequences of bytes.
pub open spec fn seeds_view(seeds: Seq<Vec<u8>>) -> Seq<Seq<u8>> {
    seeds.map_values(|seed: Vec<u8>| seed@)
}

/// Calls `Pubkey::from_str`. Trusted: the result is the identity that the
/// function decodes from `text`, and `None` where it reports an error. The
/// function depends on nothing but the string.
#[verifier::external_body]
pub(crate) fn parse_identity(text: &str) -> (id: Option<Identity>)
    ensures
        identity_bytes(id) == parsed_identity(text@),
{
    match Pubkey::from_str(text) {
        Ok(key) => Some(Identity { bytes: key.to_bytes() }),
        Err(_) => None,
    }
}

/// Calls `Pubkey::try_find_program_address`. Trusted: the result is the
/// address and bump that the function derives from the seeds and the
/// program identity, and `None` where it finds none. The function hashes its
/// arguments and depends on nothing else.
#[verifier::external_body]
pub(crate) fn find_program_address(seeds: &Vec<Vec<u8>>, program_id: &Identity) -> (found: Option<
    (Identity, u8),
>)
    ensures
        address_bytes(found) == found_program_address(seeds_view(seeds@), program_id@),
{
    let parts: Vec<&[u8]> = seeds.iter().map(|seed| seed.as_slice()).collect();
    let program = Pubkey::new_from_array(program_id.bytes);
    match Pubkey::try_find_program_address(&parts, &program) {
        Some((key, bump)) => Some((Identity { bytes: key.to_bytes() }, bump)),
        None => None,
    }
}

/// Calls `Pubkey::create_program_address`. Trusted: the result is the
/// address that the function derives from the seeds and the program
/// identity, and `None` where it reports an error. The function hashes its
/// arguments and depends on nothing else.
#[verifier::external_body]
pub(crate) fn create_program_address(seeds: &Vec<Vec<u8>>, program_id: &Identity) -> (made: Option<
    Identity,
>)
    ensures
        identity_bytes(made) == created_program_address(seeds_view(seeds@), program_id@),
{
    let parts: Vec<&[u8]> = seeds.iter().map(|seed| seed.as_slice()).collect();
    let program = Pubkey::new_from_array(program_id.bytes);
    match Pubkey::create_program_address(&parts, &program) {
        Ok(key) => Some(Identity { bytes: key.to_bytes() }),
        Err(_) => None,
    }
}

/// The vault's authority under `program_id`, with its bump: the address
/// derived from the authority seed alone. No key signs for it; only the
/// protocol can.
pub open spec fn spec_vault_authority(program_id: Identity) -> Option<(Seq<u8>, u8)> {
    found_program_address(seq![ESCROW_PDA_SEED@], program_id@)
}

/// Derives the vault's authority under `program_id`, with its bump.
pub fn vault_authority(program_id: &Identity) -> (found: Option<(Identity, u8)>)
    ensures
        address_bytes(found) == spec_vault_authority(*program_id),
{
    let seeds: Vec<Vec<u8>> = vec![seed_vec(&ESCROW_PDA_SEED)];
    assert(seeds_view(seeds@) =~= seq![ESCROW_PDA_SEED@]);
    find_program_address(&seeds, program_id)
}

/// The vault's address under `program_id`, with its bump.
pub open spec fn spec_vault_address(program_id: Identity) -> Option<(Seq<u8>, u8)> {
    found_program_address(seq![VAULT_SEED@], program_id@)
}

/// Derives the vault's address under `program_id`, with its bump.
pub fn vault_address(program_id: &Identity) -> (found: Option<(Identity, u8)>)
    ensures
        address_bytes(found) == spec_vault_address(*program_id),
{
    let seeds: Vec<Vec<u8>> = vec![seed_vec(&VAULT_SEED)];
    assert(seeds_view(seeds@) =~= seq![VAULT_SEED@]);
    find_program_address(&seeds, program_id)
}

/// The address at which genesis creates the escrow record under
/// `program_id`, with its bump.
pub open spec fn spec_new_escrow_address(program_id: Identity) -> Option<(Seq<u8>, u8)> {
    found_program_address(seq![ESCROW_SEED@], program_id@)
}

/// Derives the address at which genesis creates the escrow record.
pub fn new_escrow_address(program_id: &Identity) -> (found: Option<(Identity, u8)>)
    ensures
        address_bytes(found) == spec_new_escrow_address(*program_id),
{
    let seeds: Vec<Vec<u8>> = vec![seed_vec(&ESCROW_SEED)];
    assert(seeds_view(seeds@) =~= seq![ESCROW_SEED@]);
    find_program_address(&seeds, program_id)
}

/// The address of the escrow record whose stored bump is `bump`.
pub open spec fn spec_escrow_address(program_id: Identity, bump: u8) -> Option<Seq<u8>> {
    created_program_address(seq![ESCROW_SEED@, seq![bump]], program_id@)
}

/// Derives the address of the escrow record whose stored bump is `bump`.
pub fn escrow_address(program_id: &Identity, bump: u8) -> (made: Option<Identity>)
    ensures
        identity_bytes(made) == spec_escrow_address(*program_id, bump),
{
    let seeds: Vec<Vec<u8>> = vec![seed_vec(&ESCROW_SEED), bump_seed(bump)];
    assert(seeds_view(seeds@) =~= seq![ESCROW_SEED@, seq![bump]]);
    create_program_address(&seeds, program_id)
}

/// The address at which a mount's cooldown record is created, with its
/// bump: the one derived from the mount's identity alone.
pub open spec fn spec_new_cooldown_address(mint: Identity, program_id: Identity) -> Option<
    (Seq<u8>, u8),
> {
    found_program_address(seq![mint@], program_id@)
}

/// Derives the address at which a mount's cooldown record is created.
pub fn new_cooldown_address(mint: &Identity, program_id: &Identity) -> (found: Option<
    (Identity, u8),
>)
    ensures
        address_bytes(found) == spec_new_cooldown_address(*mint, *program_id),
{
    let seeds: Vec<Vec<u8>> = vec![mint.to_vec()];
    assert(seeds_view(seeds@) =~= seq![mint@]);
    find_program_address(&seeds, program_id)
}

/// The address of the cooldown record of `mint` whose stored bump is
/// `bump`.
pub open spec fn spec_cooldown_address(mint: Identity, bump: u8, program_id: Identity) -> Option<
    Seq<u8>,
> {
    created_program_address(seq![mint@, seq![bump]], program_id@)
}

/// Derives the address of the cooldown record of `mint` whose stored bump
/// is `bump`.
pub fn cooldown_address(mint: &Identity, bump: u8, program_id: &Identity) -> (made: Option<
    Identity,
>)
    ensures
        identity_bytes(made) == spec_cooldown_address(*mint, bump, *program_id),
{
    let seeds: Vec<Vec<u8>> = vec![mint.to_vec(), bump_seed(bump)];
    assert(seeds_view(seeds@) =~= seq![mint@, seq![bump]]);
    create_program_address(&seeds, program_id)
}

/// The metadata registry's identity.
pub open spec fn spec_metadata_program() -> Option<Seq<u8>> {
    parsed_identity(METADATA_PROGRAM@)
}

/// Reads the metadata registry's identity from its spelling.
pub fn metadata_program() -> (id: Option<Identity>)
    ensures
        identity_bytes(id) == spec_metadata_program(),
{
    parse_identity(METADATA_PROGRAM)
}

/// The address at which the registry with the bytes `registry` keeps the
/// metadata of the token with the bytes `mint`, with its bump: the one
/// derived under the registry from the metadata prefix, the registry's
/// identity and the token's.
pub open spec fn metadata_address_of(mint: Seq<u8>, registry: Seq<u8>) -> Option<(Seq<u8>, u8)> {
    found_program_address(seq![METADATA_PREFIX@, registry, mint], registry)
}

/// The address at which `registry` keeps the metadata of `mint`, with its
/// bump.
pub open spec fn spec_metadata_address(mint: Identity, registry: Identity) -> Option<
    (Seq<u8>, u8),
> {
    metadata_address_of(mint@, registry@)
}

/// Derives the address at which `registry` keeps the metadata of `mint`.
pub fn metadata_address(mint: &Identity, registry: &Identity) -> (found: Option<(Identity, u8)>)
    ensures
        address_bytes(found) == spec_metadata_address(*mint, *registry),
{
    let seeds: Vec<Vec<u8>> = vec![seed_vec(&METADATA_PREFIX), registry.to_vec(), mint.to_vec()];
    assert(seeds_view(seeds@) =~= seq![METADATA_PREFIX@, registry@, mint@]);
    find_program_address(&seeds, registry)
}

} // verus!
