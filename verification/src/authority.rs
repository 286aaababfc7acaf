//! Deterministic derivation of a program-controlled signing authority.
//!
//! A seed is mapped to an address with no known private key, plus a bump
//! byte. The program reconstructs a signing capability for that address from
//! the same seed and bump; no private key ever exists. Derivation is a pure
//! function of the seed and the program identity; for a small set of seeds no
//! valid bump exists and derivation fails.

use vstd::prelude::*;

use crate::identity::{id_bytes, spec_id_from_bytes, Identity};

verus! {

/// The address and bump derived from a single seed under a program identity,
/// or `None` when no bump is viable. The address is 32 bytes long.
pub uninterp spec fn pda_of(seed: Seq<u8>, program: Seq<u8>) -> Option<(Seq<u8>, u8)>;

/// Relies on `solana_program::pubkey::Pubkey::try_find_program_address`, with
/// a single seed: the result is a pure function of the seed bytes and the
/// program id; a derived address is 32 bytes; `None` exactly when no bump
/// seed is viable for the pair.
#[verifier::external_body]
fn pda_raw(seed: &Vec<u8>, program: &Vec<u8>) -> (r: Option<(Vec<u8>, u8)>)
    requires
        program@.len() == 32,
    ensures
        match pda_of(seed@, program@) {
            Some(p) => r matches Some(q) && q.0@ == p.0 && q.1 == p.1 && p.0.len() == 32,
            None => r is None,
        },
{
    let mut arr = [0u8; 32];
    arr.copy_from_slice(program.as_slice());
    let pk = solana_program::pubkey::Pubkey::new_from_array(arr);
    solana_program::pubkey::Pubkey::try_find_program_address(&[seed.as_slice()], &pk)
        .map(|(address, bump)| (address.to_bytes().to_vec(), bump))
}

/// The derived authority for `seed` under `program`, as an identity.
pub open spec fn spec_derive(seed: Seq<u8>, program: Identity) -> Option<(Identity, u8)> {
    match pda_of(seed, id_bytes(program)) {
        Some(p) => Some((spec_id_from_bytes(p.0), p.1)),
        None => None,
    }
}

/// Derive the program-controlled authority address and bump for a seed.
pub fn derive_authority(seed: &Vec<u8>, program: &Identity) -> (r: Option<(Identity, u8)>)
    ensures
        r == spec_derive(seed@, *program),
{
    let pb = program.to_bytes();
    match pda_raw(seed, &pb) {
        None => None,
        Some((address_bytes, bump)) => {
            match Identity::from_bytes(address_bytes.as_slice()) {
                Some(id) => Some((id, bump)),
                None => {
                    proof {
                        assert(false);
                    }
                    None
                }
            }
        }
    }
}

} // verus!
