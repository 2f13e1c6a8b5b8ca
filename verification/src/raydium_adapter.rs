//! The interface to the external market venue that a migration hands a curve
//! to.  Pool creation itself is the venue's business: this crate builds the
//! request, and treats the answer as success or failure.

use vstd::prelude::*;
use crate::errors::LifecycleError;
use crate::pubkey::Pubkey;

verus! {

/// The request to create a pool for a curve: the identities that the venue is
/// given.
#[derive(Clone, Copy, Debug, PartialEq, Eq)]
pub struct CreatePool {
    pub payer: Pubkey,
    pub token_mint: Pubkey,
    /// The curve's derived authority.
    pub curve_pda: Pubkey,
    pub curve_token_account: Pubkey,
    pub system_program: Pubkey,
    pub token_program: Pubkey,
}

/// The venue of a deployment that calls no external program: it accepts every
/// request and does nothing.
pub fn create_pool(_ctx: &CreatePool) -> (created: Result<(), LifecycleError>)
    ensures
        created == Ok::<(), LifecycleError>(()),
{
    Ok(())
}

} // verus!
