//! Curve-lifecycle control for a bonding-curve token launch platform.
//!
//! The crate holds the configuration record and its guard layer, the
//! one-way migration of a completed curve to an external market venue, and
//! the release of a completed curve's reserves to a recipient.  Every
//! operation is a function on plain values: it either returns a failure and
//! leaves its records as they were, or commits all of its effects and returns
//! the record to emit.

use vstd::prelude::*;

pub mod accounts;
pub mod errors;
pub mod instructions;
pub mod pda;
pub mod pubkey;
pub mod raydium_adapter;
pub mod states;
pub mod utils;

use crate::errors::{LifecycleError, PumpError};
use crate::instructions::{
    Configure, Migrate, MigrationCompleted, ReleaseOutcome, ReleaseReserves,
};
use crate::states::Config;

verus! {

/// Creates the configuration record, or replaces it as a whole.  While the
/// record has no authority any caller may write it; afterwards only its
/// authority may.
pub fn configure(ctx: &mut Configure, new_config: Config) -> (configured: Result<(), PumpError>)
    ensures
        match old(ctx).rejection() {
            Some(failure) => configured == Err::<(), PumpError>(failure) && *final(ctx) == *old(
                ctx,
            ),
            None => configured == Ok::<(), PumpError>(()) && *final(ctx) == (Configure {
                admin: old(ctx).admin,
                global_config: new_config,
            }),
        },
{
    ctx.process(new_config)
}

/// Migrates a completed curve, once, in a deployment that calls no external
/// program.
pub fn migrate(ctx: &mut Migrate, nonce: u8) -> (migrated: Result<
    MigrationCompleted,
    LifecycleError,
>)
    requires
        old(ctx).balances_fit(),
    ensures
        match old(ctx).rejection() {
            Some(failure) => migrated == Err::<MigrationCompleted, LifecycleError>(failure)
                && *final(ctx) == *old(ctx),
            None => migrated == Ok::<MigrationCompleted, LifecycleError>(old(ctx).record())
                && *final(ctx) == old(ctx).migrated(),
        },
{
    ctx.process(nonce)
}

/// Releases the reserves of a completed curve to the recipient.
pub fn release_reserves(ctx: &mut ReleaseReserves, bump_bonding_curve: u8) -> (released: Result<
    ReleaseOutcome,
    LifecycleError,
>)
    requires
        old(ctx).balances_fit(),
    ensures
        match old(ctx).rejection() {
            Some(failure) => released == Err::<ReleaseOutcome, LifecycleError>(failure)
                && *final(ctx) == *old(ctx),
            None => released == Ok::<ReleaseOutcome, LifecycleError>(
                (ReleaseOutcome {
                    event: old(ctx).record(),
                    sweep: old(ctx).sweep(bump_bonding_curve),
                }),
            ) && *final(ctx) == old(ctx).released(),
        },
{
    ctx.process(bump_bonding_curve)
}

} // verus!
