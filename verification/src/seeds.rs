//! The fixed seeds that the protocol derives its addresses from.
use vstd::prelude::*;

verus! {

/// The seed of the vault's authority: the bytes of `authority-seed`.
pub const ESCROW_PDA_SEED: [u8; 14] = [
    97, 117, 116, 104, 111, 114, 105, 116, 121, 45, 115, 101, 101, 100,
];

/// The seed of the vault's address: the bytes of `token-seed`.
pub const VAULT_SEED: [u8; 10] = [116, 111, 107, 101, 110, 45, 115, 101, 101, 100];

/// The seed of the escrow record's address: the bytes of `escrow-seed`.
pub const ESCROW_SEED: [u8; 11] = [101, 115, 99, 114, 111, 119, 45, 115, 101, 101, 100];

/// The first seed of a metadata account's address: the bytes of `metadata`.
pub const METADATA_PREFIX: [u8; 8] = [109, 101, 116, 97, 100, 97, 116, 97];

/// The metadata registry's identity, spelled in base 58.
pub const METADATA_PROGRAM: &'static str = "metaqbxxUerdq28cj1RbAWkYQm3ybzjb6a8bt518x1s";

/// Copies a fixed seed into a vector.
pub fn seed_vec<const N: usize>(seed: &[u8; N]) -> (out: Vec<u8>)
    ensures
        out@ == seed@,
{
    let mut out: Vec<u8> = Vec::new();
    let mut i: usize = 0;
    while i < N
        invariant
            i <= N,
            out@ == seed@.subrange(0, i as int),
        decreases N - i,
    {
        out.push(seed[i]);
        i += 1;
    }
    assert(out@ =~= seed@);
    out
}

/// The seed that holds nothing but a bump.
pub fn bump_seed(bump: u8) -> (out: Vec<u8>)
    ensures
        out@ == seq![bump],
{
    let out: Vec<u8> = vec![bump];
    assert(out@ =~= seq![bump]);
    out
}

} // verus!
