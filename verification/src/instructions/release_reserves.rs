//! Release of a completed curve's reserves to a recipient.
//!
//! The native balance above the rent-exempt minimum and the whole token
//! balance leave the curve's accounts.  The policy followed here: release is
//! open to the authority once the curve is completed; a deployment may also
//! close it while paused, and may also ask that the curve be migrated first.
//! The deployment's completion flag does not close a release, which follows
//! the migration that sets it.

use vstd::prelude::*;
use crate::accounts::{spendable, spendable_lamports, Mint, SystemAccount, TokenAccount};
use crate::errors::{LifecycleError, PumpError, ReleaseReservesError};
use crate::pubkey::Pubkey;
use crate::states::{BondingCurve, Config};
use crate::utils::guards::{ensure_admin, ensure_fee_recipient, ensure_not_paused};

verus! {

/// The record of one release.  It is produced by every release that passes
/// its checks, also when both amounts are zero.
#[derive(Clone, Copy, Debug, PartialEq, Eq)]
pub struct ReservesReleased {
    pub mint: Pubkey,
    pub recipient: Pubkey,
    pub lamports_sent: u64,
    pub tokens_sent: u64,
}

/// What a deployment asks of a release beyond the authority and the
/// completed curve.
#[derive(Clone, Copy, Debug, PartialEq, Eq, Structural)]
pub struct ReleasePolicy {
    /// Turn a release down with `ProgramPaused` while the deployment is
    /// paused.
    pub closed_while_paused: bool,
    /// Turn a release down with `CurveNotCompleted` until the curve has been
    /// migrated.
    pub require_migration: bool,
}

/// The token transfer that a release asks for: the whole balance of the
/// curve's token account, signed for by the curve's derived authority, after
/// which the emptied account is closed in favour of the recipient.
#[derive(Clone, Copy, Debug, PartialEq, Eq, Structural)]
pub struct TokenSweep {
    pub amount: u64,
    /// The decimal places that the transfer is validated against.
    pub decimals: u8,
    /// The bump seed of the curve's derived authority.
    pub bump: u8,
}

/// What a release decided: the record to emit and the token transfer to
/// perform, if there is one.
#[derive(Clone, Copy, Debug, PartialEq, Eq)]
pub struct ReleaseOutcome {
    pub event: ReservesReleased,
    pub sweep: Option<TokenSweep>,
}

/// The records and balances that a release reads and writes.
#[derive(Clone, Copy, Debug, PartialEq, Eq)]
pub struct ReleaseReserves {
    /// The caller.
    pub admin: Pubkey,
    pub global_config: Config,
    pub token_mint: Mint,
    pub bonding_curve: BondingCurve,
    /// The native balance of the curve's account.
    pub curve_lamports: u64,
    /// The least native balance that keeps the curve's account valid.
    pub rent_exempt_minimum: u64,
    /// The curve's token account; `None` once it has been closed.
    pub curve_token_account: Option<TokenAccount>,
    pub recipient: SystemAccount,
    /// The token balance of the recipient's token account; `None` while the
    /// account does not exist.
    pub recipient_tokens: Option<u64>,
    /// The fee recipient that the caller names, if it names one.
    pub fee_recipient: Option<Pubkey>,
    pub policy: ReleasePolicy,
}

impl ReleaseReserves {
    /// The tokens that a release moves: the whole balance of the curve's token
    /// account.
    pub open spec fn curve_tokens(&self) -> u64 {
        match self.curve_token_account {
            Some(account) => account.amount,
            None => 0,
        }
    }

    /// The native units that come back when the swept token account is closed.
    pub open spec fn reclaimed_rent(&self) -> u64 {
        match self.curve_token_account {
            Some(account) => if account.amount > 0 {
                account.lamports
            } else {
                0
            },
            None => 0,
        }
    }

    /// The tokens that the recipient holds; none where its account does not
    /// exist yet.
    pub open spec fn recipient_token_balance(&self) -> u64 {
        match self.recipient_tokens {
            Some(amount) => amount,
            None => 0,
        }
    }

    /// The recipient's balances can take what a release hands over: both sums
    /// lie within the ledger's range of amounts.
    pub open spec fn balances_fit(&self) -> bool {
        &&& self.recipient.lamports + self.lamports_released() + self.reclaimed_rent()
            <= u64::MAX
        &&& self.recipient_token_balance() + self.curve_tokens() <= u64::MAX
    }

    /// The failure that a release reports, if it reports one.  The checks run
    /// in this order: pause, authority, curve, fee recipient.
    pub open spec fn rejection(&self) -> Option<LifecycleError> {
        if self.policy.closed_while_paused && self.global_config.paused {
            Some(LifecycleError::Guard(PumpError::ProgramPaused))
        } else if self.admin != self.global_config.authority {
            Some(LifecycleError::Guard(PumpError::NotAuthorized))
        } else if !self.bonding_curve.is_completed {
            Some(LifecycleError::Curve(ReleaseReservesError::CurveNotCompleted))
        } else if self.policy.require_migration && !self.bonding_curve.migration_completed {
            Some(LifecycleError::Curve(ReleaseReservesError::CurveNotCompleted))
        } else if self.fee_recipient matches Some(named) && named
            != self.global_config.fee_recipient {
            Some(LifecycleError::Guard(PumpError::IncorrectFeeRecipient))
        } else {
            None
        }
    }

    /// The native units that a release moves out of the curve's account.
    pub open spec fn lamports_released(&self) -> u64 {
        spendable(self.curve_lamports, self.rent_exempt_minimum)
    }

    /// The record of a release that passes its checks.
    pub open spec fn record(&self) -> ReservesReleased {
        ReservesReleased {
            mint: self.token_mint.key,
            recipient: self.recipient.key,
            lamports_sent: self.lamports_released(),
            tokens_sent: self.curve_tokens(),
        }
    }

    /// The token transfer of a release that passes its checks.
    pub open spec fn sweep(&self, bump: u8) -> Option<TokenSweep> {
        if self.curve_tokens() > 0 {
            Some(TokenSweep { amount: self.curve_tokens(), decimals: self.token_mint.decimals, bump })
        } else {
            None
        }
    }

    /// The records and balances after a release that passes its checks.
    pub open spec fn released(&self) -> ReleaseReserves {
        ReleaseReserves {
            curve_lamports: (self.curve_lamports - self.lamports_released()) as u64,
            curve_token_account: if self.curve_tokens() > 0 {
                None
            } else {
                self.curve_token_account
            },
            recipient: SystemAccount {
                key: self.recipient.key,
                lamports: (self.recipient.lamports + self.lamports_released()
                    + self.reclaimed_rent()) as u64,
            },
            recipient_tokens: Some((self.recipient_token_balance() + self.curve_tokens()) as u64),
            ..*self
        }
    }

    /// Tells whether the recipient's balances can take what a release hands
    /// over, as `process` asks.
    pub fn balances_in_range(&self) -> (fit: bool)
        ensures
            fit == self.balances_fit(),
    {
        let (tokens, rent): (u64, u64) = match self.curve_token_account {
            Some(account) => (
                account.amount,
                if account.amount > 0 {
                    account.lamports
                } else {
                    0
                },
            ),
            None => (0, 0),
        };
        let held: u64 = match self.recipient_tokens {
            Some(amount) => amount,
            None => 0,
        };
        let available: u64 = spendable_lamports(self.curve_lamports, self.rent_exempt_minimum);
        let native_fits = match self.recipient.lamports.checked_add(available) {
            Some(sum) => sum.checked_add(rent).is_some(),
            None => false,
        };
        native_fits && held.checked_add(tokens).is_some()
    }

    /// Runs the checks of a release, in their order, and changes nothing.
    pub fn check(&self) -> (checked: Result<(), LifecycleError>)
        ensures
            checked == match self.rejection() {
                Some(failure) => Err::<(), LifecycleError>(failure),
                None => Ok::<(), LifecycleError>(()),
            },
    {
        if self.policy.closed_while_paused {
            match ensure_not_paused(&self.global_config) {
                Ok(()) => {},
                Err(error) => {
                    return Err(LifecycleError::Guard(error));
                },
            }
        }
        match ensure_admin(&self.global_config, &self.admin) {
            Ok(()) => {},
            Err(error) => {
                return Err(LifecycleError::Guard(error));
            },
        }
        if !self.bonding_curve.is_completed {
            return Err(LifecycleError::Curve(ReleaseReservesError::CurveNotCompleted));
        }
        if self.policy.require_migration && !self.bonding_curve.migration_completed {
            return Err(LifecycleError::Curve(ReleaseReservesError::CurveNotCompleted));
        }
        match self.fee_recipient {
            Some(named) => {
                match ensure_fee_recipient(&self.global_config, &named) {
                    Ok(()) => {},
                    Err(error) => {
                        return Err(LifecycleError::Guard(error));
                    },
                }
            },
            None => {},
        }
        Ok(())
    }

    /// Releases the curve's reserves to the recipient.
    ///
    /// A request that fails a check gets that failure and changes nothing.
    /// Otherwise the curve's account keeps its rent-exempt minimum (or its
    /// whole balance, where that is less) and the rest goes to the recipient;
    /// the whole token balance goes to the recipient's token account, which
    /// exists afterwards; and a swept token account is closed, its deposit
    /// going to the recipient.
    pub fn process(&mut self, bump_bonding_curve: u8) -> (released: Result<
        ReleaseOutcome,
        LifecycleError,
    >)
        requires
            old(self).balances_fit(),
        ensures
            match old(self).rejection() {
                Some(failure) => released == Err::<ReleaseOutcome, LifecycleError>(failure)
                    && *final(self) == *old(self),
                None => released == Ok::<ReleaseOutcome, LifecycleError>(
                    (ReleaseOutcome {
                        event: old(self).record(),
                        sweep: old(self).sweep(bump_bonding_curve),
                    }),
                ) && *final(self) == old(self).released(),
            },
    {
        match self.check() {
            Ok(()) => {},
            Err(failure) => {
                return Err(failure);
            },
        }
        let available: u64 = spendable_lamports(self.curve_lamports, self.rent_exempt_minimum);
        let mut lamports_sent: u64 = 0;
        if available > 0 {
            self.curve_lamports = self.curve_lamports - available;
            self.recipient.lamports = self.recipient.lamports + available;
            lamports_sent = available;
        }
        let held: u64 = match self.recipient_tokens {
            Some(amount) => amount,
            None => 0,
        };
        let mut tokens_sent: u64 = 0;
        let mut sweep: Option<TokenSweep> = None;
        match self.curve_token_account {
            Some(account) => {
                if account.amount > 0 {
                    sweep = Some(
                        TokenSweep {
                            amount: account.amount,
                            decimals: self.token_mint.decimals,
                            bump: bump_bonding_curve,
                        },
                    );
                    tokens_sent = account.amount;
                    self.recipient.lamports = self.recipient.lamports + account.lamports;
                    self.curve_token_account = None;
                }
            },
            None => {},
        }
        self.recipient_tokens = Some(held + tokens_sent);
        let event = ReservesReleased {
            mint: self.token_mint.key,
            recipient: self.recipient.key,
            lamports_sent,
            tokens_sent,
        };
        Ok(ReleaseOutcome { event, sweep })
    }
}

/// Whether a release passes its checks does not depend on any balance.
pub proof fn lemma_release_checks_ignore_balances(ctx: ReleaseReserves, other: ReleaseReserves)
    requires
        other.admin == ctx.admin,
        other.global_config == ctx.global_config,
        other.bonding_curve == ctx.bonding_curve,
        other.fee_recipient == ctx.fee_recipient,
        other.policy == ctx.policy,
    ensures
        other.rejection() == ctx.rejection(),
{
}

/// A release never leaves the curve's account below its rent-exempt minimum:
/// from a balance at or above the minimum it leaves exactly the minimum and
/// sends the difference; from a balance at or below it, it sends nothing and
/// leaves the balance as it was.
pub proof fn lemma_release_keeps_rent_minimum(ctx: ReleaseReserves)
    ensures
        ctx.curve_lamports >= ctx.rent_exempt_minimum ==> ctx.released().curve_lamports
            == ctx.rent_exempt_minimum && ctx.record().lamports_sent == ctx.curve_lamports
            - ctx.rent_exempt_minimum,
        ctx.curve_lamports <= ctx.rent_exempt_minimum ==> ctx.record().lamports_sent == 0
            && ctx.released().curve_lamports == ctx.curve_lamports,
{
}

/// The native units of the accounts concerned are conserved: what the
/// recipient gains is what the curve's account sends plus the deposit of a
/// closed token account, and nothing else changes hands.
pub proof fn lemma_release_conserves_native(ctx: ReleaseReserves)
    requires
        ctx.balances_fit(),
    ensures
        ctx.released().recipient.lamports == ctx.recipient.lamports + ctx.record().lamports_sent
            + ctx.reclaimed_rent(),
        ctx.released().curve_lamports + ctx.record().lamports_sent == ctx.curve_lamports,
        ctx.released().curve_token_account is Some ==> ctx.released().curve_token_account
            == ctx.curve_token_account && ctx.reclaimed_rent() == 0,
{
}

/// The token sweep conserves the supply: the recipient gains exactly what the
/// curve's token account held, and that account holds nothing afterwards.
pub proof fn lemma_sweep_conserves_tokens(ctx: ReleaseReserves)
    requires
        ctx.balances_fit(),
    ensures
        ctx.released().recipient_token_balance() == ctx.recipient_token_balance()
            + ctx.curve_tokens(),
        ctx.released().curve_tokens() == 0,
        ctx.record().tokens_sent == ctx.curve_tokens(),
        ctx.released().recipient_tokens is Some,
{
}

/// A release writes neither record: the configuration and the curve's state,
/// their flags included, are after it what they were before.
pub proof fn lemma_release_leaves_records(ctx: ReleaseReserves)
    ensures
        ctx.released().global_config == ctx.global_config,
        ctx.released().bonding_curve == ctx.bonding_curve,
        ctx.released().admin == ctx.admin,
        ctx.released().token_mint == ctx.token_mint,
        ctx.released().recipient.key == ctx.recipient.key,
{
}

/// A release after a release moves nothing: both amounts of its record are
/// zero, and it leaves every record and balance as it found them.
pub proof fn lemma_second_release_moves_nothing(ctx: ReleaseReserves)
    requires
        ctx.balances_fit(),
    ensures
        ctx.released().balances_fit(),
        ctx.released().rejection() == ctx.rejection(),
        ctx.released().record().lamports_sent == 0,
        ctx.released().record().tokens_sent == 0,
        ctx.released().released() == ctx.released(),
{
}

} // verus!
