//! Migration of a completed curve to the external venue: a transition that a
//! curve makes once.
//!
//! The policy followed here: a migration is closed while the deployment is
//! paused and once the deployment has completed one; it is open to the
//! authority only.

use vstd::prelude::*;
use crate::accounts::{spendable, spendable_lamports, Mint};
use crate::errors::{LifecycleError, PumpError, ReleaseReservesError};
use crate::pubkey::Pubkey;
use crate::raydium_adapter::{create_pool, CreatePool};
use crate::states::{BondingCurve, Config};
use crate::utils::guards::{
    ensure_admin, ensure_expected_program, ensure_not_completed, ensure_not_paused,
    program_admitted,
};

verus! {

/// The record of one completed migration.
#[derive(Clone, Copy, Debug, PartialEq, Eq)]
pub struct MigrationCompleted {
    pub mint: Pubkey,
    /// The venue program that the curve was handed to.
    pub adapter_program: Pubkey,
}

/// An account that holds the native asset in wrapped form, under the curve's
/// derived authority.
#[derive(Clone, Copy, Debug, PartialEq, Eq, Structural)]
pub struct WrappedNative {
    /// The native units that the account holds for its token balance.
    pub lamports: u64,
    /// The token balance that the account records.
    pub amount: u64,
}

/// The records, identities and balances that a migration reads and writes.
#[derive(Clone, Copy, Debug, PartialEq, Eq)]
pub struct Migrate {
    pub global_config: Config,
    /// The caller.
    pub payer: Pubkey,
    pub token_mint: Mint,
    pub bonding_curve: BondingCurve,
    /// The curve's derived authority, which is also its account.
    pub curve_pda: Pubkey,
    pub curve_token_account: Pubkey,
    /// The native balance of the curve's account.
    pub curve_lamports: u64,
    /// The least native balance that keeps the curve's account valid.
    pub rent_exempt_minimum: u64,
    /// The wrapped-native account to fill, where the venue takes the native
    /// asset in wrapped form.
    pub wrapped_native: Option<WrappedNative>,
    /// The venue program that the caller names.
    pub raydium_program: Pubkey,
    /// The alternative venue program that the caller names.
    pub meteora_program: Pubkey,
    pub system_program: Pubkey,
    pub token_program: Pubkey,
}

impl Migrate {
    /// The failure that a migration reports, if it reports one.  The checks
    /// run in this order: pause, completion, authority, curve, venue programs.
    pub open spec fn rejection(&self) -> Option<LifecycleError> {
        if self.global_config.paused {
            Some(LifecycleError::Guard(PumpError::ProgramPaused))
        } else if self.global_config.is_completed {
            Some(LifecycleError::Guard(PumpError::ProgramCompleted))
        } else if self.payer != self.global_config.authority {
            Some(LifecycleError::Guard(PumpError::NotAuthorized))
        } else if !self.bonding_curve.is_completed {
            Some(LifecycleError::Curve(ReleaseReservesError::CurveNotCompleted))
        } else if self.bonding_curve.migration_completed {
            Some(LifecycleError::Guard(PumpError::CurveAlreadyCompleted))
        } else if !program_admitted(
            self.raydium_program,
            self.global_config.expected_raydium_program,
        ) || !program_admitted(self.meteora_program, self.global_config.expected_meteora_program) {
            Some(LifecycleError::Guard(PumpError::UnexpectedProgramId))
        } else {
            None
        }
    }

    /// The native units that a migration wraps: what the curve's account holds
    /// above its rent-exempt minimum, where there is an account to fill.
    pub open spec fn to_wrap(&self) -> u64 {
        if self.wrapped_native is Some {
            spendable(self.curve_lamports, self.rent_exempt_minimum)
        } else {
            0
        }
    }

    /// The wrapped-native account can take what a migration wraps: the sum
    /// lies within the ledger's range of amounts.
    pub open spec fn balances_fit(&self) -> bool {
        self.wrapped_native matches Some(wrapped) ==> wrapped.lamports + self.to_wrap()
            <= u64::MAX
    }

    /// The request that a migration hands to the venue.
    pub open spec fn pool_request(&self) -> CreatePool {
        CreatePool {
            payer: self.payer,
            token_mint: self.token_mint.key,
            curve_pda: self.curve_pda,
            curve_token_account: self.curve_token_account,
            system_program: self.system_program,
            token_program: self.token_program,
        }
    }

    /// The record of a migration that passes its checks.
    pub open spec fn record(&self) -> MigrationCompleted {
        MigrationCompleted { mint: self.token_mint.key, adapter_program: self.raydium_program }
    }

    /// The records and balances after a migration that passes its checks:
    /// both completion flags set, and the spendable native balance wrapped,
    /// with the wrapped account's recorded balance equal to what it holds.
    pub open spec fn migrated(&self) -> Migrate {
        Migrate {
            global_config: Config { is_completed: true, ..self.global_config },
            bonding_curve: BondingCurve { migration_completed: true, ..self.bonding_curve },
            curve_lamports: (self.curve_lamports - self.to_wrap()) as u64,
            wrapped_native: match self.wrapped_native {
                Some(wrapped) => Some(
                    WrappedNative {
                        lamports: (wrapped.lamports + self.to_wrap()) as u64,
                        amount: (wrapped.lamports + self.to_wrap()) as u64,
                    },
                ),
                None => None,
            },
            ..*self
        }
    }

    /// Tells whether the wrapped-native account can take what a migration
    /// wraps, as `commit` and `process` ask.
    pub fn balances_in_range(&self) -> (fit: bool)
        ensures
            fit == self.balances_fit(),
    {
        match self.wrapped_native {
            Some(wrapped) => wrapped.lamports.checked_add(
                spendable_lamports(self.curve_lamports, self.rent_exempt_minimum),
            ).is_some(),
            None => true,
        }
    }

    /// Runs the checks of a migration, in their order, and changes nothing.
    pub fn check(&self) -> (checked: Result<(), LifecycleError>)
        ensures
            checked == match self.rejection() {
                Some(failure) => Err::<(), LifecycleError>(failure),
                None => Ok::<(), LifecycleError>(()),
            },
    {
        match ensure_not_paused(&self.global_config) {
            Ok(()) => {},
            Err(error) => {
                return Err(LifecycleError::Guard(error));
            },
        }
        match ensure_not_completed(&self.global_config) {
            Ok(()) => {},
            Err(error) => {
                return Err(LifecycleError::Guard(error));
            },
        }
        match ensure_admin(&self.global_config, &self.payer) {
            Ok(()) => {},
            Err(error) => {
                return Err(LifecycleError::Guard(error));
            },
        }
        if !self.bonding_curve.is_completed {
            return Err(LifecycleError::Curve(ReleaseReservesError::CurveNotCompleted));
        }
        if self.bonding_curve.migration_completed {
            return Err(LifecycleError::Guard(PumpError::CurveAlreadyCompleted));
        }
        match ensure_expected_program(
            &self.raydium_program,
            &self.global_config.expected_raydium_program,
        ) {
            Ok(()) => {},
            Err(error) => {
                return Err(LifecycleError::Guard(error));
            },
        }
        match ensure_expected_program(
            &self.meteora_program,
            &self.global_config.expected_meteora_program,
        ) {
            Ok(()) => {},
            Err(error) => {
                return Err(LifecycleError::Guard(error));
            },
        }
        Ok(())
    }

    /// Computes the native units that a migration wraps.
    pub fn wrap_amount(&self) -> (amount: u64)
        ensures
            amount == self.to_wrap(),
    {
        match self.wrapped_native {
            Some(_) => spendable_lamports(self.curve_lamports, self.rent_exempt_minimum),
            None => 0,
        }
    }

    /// Builds the request that the venue is given.
    pub fn create_pool_request(&self) -> (request: CreatePool)
        ensures
            request == self.pool_request(),
    {
        CreatePool {
            payer: self.payer,
            token_mint: self.token_mint.key,
            curve_pda: self.curve_pda,
            curve_token_account: self.curve_token_account,
            system_program: self.system_program,
            token_program: self.token_program,
        }
    }

    /// Commits a migration whose checks have passed and whose pool the venue
    /// has created: wraps the spendable native balance, sets both completion
    /// flags, and returns the record.
    pub fn commit(&mut self) -> (event: MigrationCompleted)
        requires
            old(self).rejection() is None,
            old(self).balances_fit(),
        ensures
            event == old(self).record(),
            *final(self) == old(self).migrated(),
    {
        match self.wrapped_native {
            Some(wrapped) => {
                let to_wrap: u64 = spendable_lamports(
                    self.curve_lamports,
                    self.rent_exempt_minimum,
                );
                self.curve_lamports = self.curve_lamports - to_wrap;
                let held: u64 = wrapped.lamports + to_wrap;
                self.wrapped_native = Some(WrappedNative { lamports: held, amount: held });
            },
            None => {},
        }
        self.bonding_curve.migration_completed = true;
        self.global_config.is_completed = true;
        MigrationCompleted { mint: self.token_mint.key, adapter_program: self.raydium_program }
    }

    /// Migrates the curve in a deployment that calls no external program.
    ///
    /// A request that fails a check gets that failure and changes nothing.
    /// Otherwise the migration is committed.  The argument is the bump seed of
    /// the venue's authority; nothing here depends on it.
    pub fn process(&mut self, _nonce: u8) -> (migrated: Result<MigrationCompleted, LifecycleError>)
        requires
            old(self).balances_fit(),
        ensures
            match old(self).rejection() {
                Some(failure) => migrated == Err::<MigrationCompleted, LifecycleError>(failure)
                    && *final(self) == *old(self),
                None => migrated == Ok::<MigrationCompleted, LifecycleError>(old(self).record())
                    && *final(self) == old(self).migrated(),
            },
    {
        match self.check() {
            Ok(()) => {},
            Err(failure) => {
                return Err(failure);
            },
        }
        let request = self.create_pool_request();
        match create_pool(&request) {
            Ok(()) => {},
            Err(failure) => {
                return Err(failure);
            },
        }
        Ok(self.commit())
    }
}

/// A migrated curve is never migrated again: whatever else holds, the request
/// is turned down.
pub proof fn lemma_migrated_curve_is_rejected(ctx: Migrate)
    requires
        ctx.bonding_curve.migration_completed,
    ensures
        ctx.rejection() is Some,
{
}

/// A migration sets both completion flags, keeps every identity and every
/// other field of the two records, and a second request on what it leaves is
/// turned down as completed.
pub proof fn lemma_migration_is_one_way(ctx: Migrate)
    requires
        ctx.rejection() is None,
    ensures
        ctx.migrated().bonding_curve.migration_completed,
        ctx.migrated().global_config.is_completed,
        ctx.migrated().rejection() == Some(LifecycleError::Guard(PumpError::ProgramCompleted)),
{
}

/// The completion flags only ever go from unset to set: a migration sets the
/// deployment's and the curve's migration flag, and resets none.
pub proof fn lemma_migration_resets_no_flag(ctx: Migrate)
    ensures
        ctx.migrated().global_config == (Config { is_completed: true, ..ctx.global_config }),
        ctx.migrated().bonding_curve == (BondingCurve {
            migration_completed: true,
            ..ctx.bonding_curve
        }),
        ctx.bonding_curve.is_completed ==> ctx.migrated().bonding_curve.is_completed,
{
}

/// Wrapping never draws the curve's account below its rent-exempt minimum,
/// and what leaves the curve's account is what the wrapped account gains.
pub proof fn lemma_wrap_keeps_rent_minimum(ctx: Migrate)
    requires
        ctx.balances_fit(),
    ensures
        ctx.curve_lamports >= ctx.rent_exempt_minimum ==> ctx.migrated().curve_lamports
            >= ctx.rent_exempt_minimum,
        ctx.curve_lamports < ctx.rent_exempt_minimum ==> ctx.migrated().curve_lamports
            == ctx.curve_lamports,
        ctx.wrapped_native matches Some(before) ==> (ctx.migrated().wrapped_native matches Some(
            after,
        ) && after.lamports == before.lamports + (ctx.curve_lamports
            - ctx.migrated().curve_lamports) && after.amount == after.lamports
            && ctx.migrated().curve_lamports == if ctx.curve_lamports
            >= ctx.rent_exempt_minimum {
            ctx.rent_exempt_minimum
        } else {
            ctx.curve_lamports
        }),
        ctx.wrapped_native is None ==> ctx.migrated().curve_lamports == ctx.curve_lamports,
{
}

} // verus!
