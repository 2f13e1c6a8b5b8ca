//! Program-derived addresses: identities that a program signs for, derived
//! from seeds and the program's own identity.

use vstd::prelude::*;
use crate::pubkey::Pubkey;

verus! {

/// The address that the ledger derives from `seeds` for the program
/// `program_id`, with the bump seed that completes it; `None` where the seeds
/// admit no address.
pub uninterp spec fn program_address(seeds: Seq<Seq<u8>>, program_id: Seq<u8>) -> Option<
    (Seq<u8>, u8),
>;

/// An address and its bump seed, as bytes.
pub open spec fn address_view(found: Option<(Pubkey, u8)>) -> Option<(Seq<u8>, u8)> {
    match found {
        Some(pair) => Some((pair.0@, pair.1)),
        None => None,
    }
}

/// Calls `Pubkey::try_find_program_address` of the ledger's library.  The
/// derivation (a hash of the seeds, the bump seed and the program's identity,
/// tried from the highest bump seed down until the result is off the curve)
/// is not restated here: the contract only says that the result is a function
/// of the seeds and of the program's identity.
#[verifier::external_body]
pub(crate) fn try_find_program_address(seeds: &Vec<Vec<u8>>, program_id: &Pubkey) -> (found: Option<
    (Pubkey, u8),
>)
    ensures
        address_view(found) == program_address(seeds.deep_view(), program_id@),
{
    let parts: Vec<&[u8]> = seeds.iter().map(|seed| seed.as_slice()).collect();
    let id = anchor_lang::prelude::Pubkey::new_from_array(program_id.bytes);
    match anchor_lang::prelude::Pubkey::try_find_program_address(&parts, &id) {
        Some((key, bump)) => Some((Pubkey { bytes: key.to_bytes() }, bump)),
        None => None,
    }
}

} // verus!
