//! Addresses derived from seeds and a program, with no private key.
use vstd::prelude::*;

use crate::pubkey::{key_seed, Pubkey};

verus! {

/// The address, and its bump seed, that solana-program's
/// `Pubkey::try_find_program_address` derives from the byte contents of the
/// seeds and the program id, or `None` where it derives none.
pub uninterp spec fn program_address(seeds: Seq<Seq<u8>>, program_id: Seq<u8>) -> Option<(Seq<u8>, u8)>;

/// Calls solana-program's `Pubkey::try_find_program_address` on the seeds
/// and the program id. The contract claims that the result, address and
/// bump seed or nothing, is the one named by `program_address` on the bytes
/// of the seeds and of the program id, which is a function of them alone (a
/// hash searched over the bump seeds). Nothing is derived where the seeds
/// leave no room for the bump seed, where a seed is too long, or in the
/// event, which its documentation calls statistically improbable, that no
/// bump seed gives an address; the contract does not say which inputs those
/// are.
#[verifier::external_body]
fn try_find_program_address(seeds: &Vec<Vec<u8>>, program_id: &Pubkey) -> (found: Option<(Pubkey, u8)>)
    ensures
        found matches Some(f) ==> program_address(seeds.deep_view(), program_id.0@) == Some((f.0.0@, f.1)),
        found is None ==> program_address(seeds.deep_view(), program_id.0@) is None,
{
    let slices: Vec<&[u8]> = seeds.iter().map(|seed| seed.as_slice()).collect();
    let program = solana_program::pubkey::Pubkey::new_from_array(program_id.0);
    solana_program::pubkey::Pubkey::try_find_program_address(&slices, &program)
        .map(|(address, bump)| (Pubkey(address.to_bytes()), bump))
}

/// The address and bump seed of a derivation, as plain values.
pub open spec fn derived_view(found: Option<(Pubkey, u8)>) -> Option<(Seq<u8>, u8)> {
    match found {
        Some(f) => Some((f.0.0@, f.1)),
        None => None,
    }
}

/// The seeds of the address that signs for a vault's multi-signature
/// authority: the vault's address and the authority's nonce.
pub open spec fn signer_seeds(vault_key: Pubkey, nonce: u8) -> Seq<Seq<u8>> {
    seq![vault_key.0@, seq![nonce]]
}

/// The address, and its bump seed, that signs for the multi-signature
/// authority with `nonce` of the vault at `vault_key`, derived for
/// `program_id`; `None` where none can be derived.
pub fn multisig_signer_address(vault_key: &Pubkey, nonce: u8, program_id: &Pubkey) -> (found: Option<(
    Pubkey,
    u8,
)>)
    ensures
        derived_view(found) == program_address(signer_seeds(*vault_key, nonce), program_id.0@),
{
    let mut seeds: Vec<Vec<u8>> = Vec::new();
    seeds.push(key_seed(vault_key));
    let mut nonce_seed: Vec<u8> = Vec::new();
    nonce_seed.push(nonce);
    seeds.push(nonce_seed);
    assert(seeds@[0].deep_view() =~= vault_key.0@);
    assert(seeds@[1].deep_view() =~= seq![nonce]);
    assert(seeds.deep_view() =~= signer_seeds(*vault_key, nonce));
    try_find_program_address(&seeds, program_id)
}

} // verus!
