//! The custody authority: a deterministic, program-controlled identity derived
//! from the fixed domain tag `"escrow"` and the program's own id, together
//! with the proof seed used to act as that identity without a private key.

use crate::key::{key_bytes_of, key_of_bytes, Key, KEY_LEN};
use vstd::prelude::*;

verus! {

/// What the derivation returns for 32 program-id bytes: the authority's 32
/// key bytes and the proof seed. The derivation is a pure function of the
/// program id, so the pair carries one name.
pub uninterp spec fn custody_derivation_of(program_id: Seq<u8>) -> (Seq<u8>, u8);

/// Whether a custody authority can be derived at all for 32 program-id
/// bytes. The search is a pure function of the program id; it comes up empty
/// only in the statistically improbable event that no bump seed yields an
/// off-curve address. Success in the processor is owed under this predicate.
pub uninterp spec fn custody_derivable(program_id: Seq<u8>) -> bool;

/// The custody authority's identity for a program.
pub open spec fn custody_key_of(program_id: Key) -> Key {
    key_of_bytes(custody_derivation_of(key_bytes_of(program_id)).0)
}

/// The proof seed that authorizes acting as the custody authority.
pub open spec fn custody_seed_of(program_id: Key) -> u8 {
    custody_derivation_of(key_bytes_of(program_id)).1
}

/// Relies on `solana_program::pubkey::Pubkey::try_find_program_address` with
/// the fixed seed `b"escrow"`: whether it yields an address, and which
/// address and bump seed, depend on the program id alone; the address is 32
/// bytes, and no private key exists for it. It yields nothing only in the
/// statistically improbable event that no bump seed works.
#[verifier::external_body]
fn try_find_custody_authority(program_id: &[u8]) -> (r: Option<(Vec<u8>, u8)>)
    requires
        program_id@.len() == 32,
    ensures
        r is Some <==> custody_derivable(program_id@),
        r matches Some(p) ==> p.0@ == custody_derivation_of(program_id@).0 && p.1
            == custody_derivation_of(program_id@).1 && p.0@.len() == 32,
{
    let pk = solana_program::pubkey::Pubkey::try_from(program_id).unwrap();
    match solana_program::pubkey::Pubkey::try_find_program_address(&[b"escrow"], &pk) {
        Some((addr, bump)) => Some((addr.to_bytes().to_vec(), bump)),
        None => None,
    }
}

/// Derives the custody authority identity and its proof seed for a program.
/// Yields nothing only in the statistically improbable event that the ledger
/// can derive no address for this program id.
pub fn derive(program_id: &Key) -> (r: Option<(Key, u8)>)
    ensures
        r is Some <==> custody_derivable(key_bytes_of(*program_id)),
        r matches Some(p) ==> p.0 == custody_key_of(*program_id) && p.1 == custody_seed_of(
            *program_id,
        ),
{
    let b = program_id.to_bytes();
    match try_find_custody_authority(b.as_slice()) {
        Some((addr, bump)) => {
            let k = Key::from_slice(addr.as_slice(), 0);
            proof {
                assert(addr@.subrange(0, KEY_LEN as int) =~= addr@);
            }
            Some((k, bump))
        }
        None => None,
    }
}

} // verus!
