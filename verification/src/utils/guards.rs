//! The guard layer: checks on the configuration that every operation runs
//! before it changes anything.  A guard reads its arguments and nothing else.

use vstd::prelude::*;
use crate::errors::PumpError;
use crate::pubkey::Pubkey;
use crate::states::Config;

verus! {

/// What an allow-list entry says of a supplied program identity: an unset
/// entry admits every identity, a set one admits itself only.
pub open spec fn program_admitted(actual: Pubkey, expected: Pubkey) -> bool {
    expected.is_default() || actual == expected
}

/// Passes unless the deployment is paused.
pub fn ensure_not_paused(config: &Config) -> (checked: Result<(), PumpError>)
    ensures
        checked == if config.paused {
            Err::<(), PumpError>(PumpError::ProgramPaused)
        } else {
            Ok::<(), PumpError>(())
        },
{
    if config.paused {
        return Err(PumpError::ProgramPaused);
    }
    Ok(())
}

/// Passes unless a migration has completed for the deployment.
pub fn ensure_not_completed(config: &Config) -> (checked: Result<(), PumpError>)
    ensures
        checked == if config.is_completed {
            Err::<(), PumpError>(PumpError::ProgramCompleted)
        } else {
            Ok::<(), PumpError>(())
        },
{
    if config.is_completed {
        return Err(PumpError::ProgramCompleted);
    }
    Ok(())
}

/// Passes when `admin_key` is the configured authority.
pub fn ensure_admin(config: &Config, admin_key: &Pubkey) -> (checked: Result<(), PumpError>)
    ensures
        checked == if *admin_key == config.authority {
            Ok::<(), PumpError>(())
        } else {
            Err::<(), PumpError>(PumpError::NotAuthorized)
        },
{
    if config.authority != *admin_key {
        return Err(PumpError::NotAuthorized);
    }
    Ok(())
}

/// Passes unless launches are paused.
pub fn ensure_launch_allowed(config: &Config) -> (checked: Result<(), PumpError>)
    ensures
        checked == if config.pause_launch {
            Err::<(), PumpError>(PumpError::ProgramPaused)
        } else {
            Ok::<(), PumpError>(())
        },
{
    if config.pause_launch {
        return Err(PumpError::ProgramPaused);
    }
    Ok(())
}

/// Passes unless swaps are paused.
pub fn ensure_swap_allowed(config: &Config) -> (checked: Result<(), PumpError>)
    ensures
        checked == if config.pause_swap {
            Err::<(), PumpError>(PumpError::ProgramPaused)
        } else {
            Ok::<(), PumpError>(())
        },
{
    if config.pause_swap {
        return Err(PumpError::ProgramPaused);
    }
    Ok(())
}

/// Passes when `expected` is unset, or when `actual` is exactly `expected`.
pub fn ensure_expected_program(actual: &Pubkey, expected: &Pubkey) -> (checked: Result<
    (),
    PumpError,
>)
    ensures
        checked == if program_admitted(*actual, *expected) {
            Ok::<(), PumpError>(())
        } else {
            Err::<(), PumpError>(PumpError::UnexpectedProgramId)
        },
{
    if !expected.is_unset() {
        if *actual != *expected {
            return Err(PumpError::UnexpectedProgramId);
        }
    }
    Ok(())
}

/// Passes when `recipient` is the configured fee recipient.
pub fn ensure_fee_recipient(config: &Config, recipient: &Pubkey) -> (checked: Result<
    (),
    PumpError,
>)
    ensures
        checked == if *recipient == config.fee_recipient {
            Ok::<(), PumpError>(())
        } else {
            Err::<(), PumpError>(PumpError::IncorrectFeeRecipient)
        },
{
    if config.fee_recipient != *recipient {
        return Err(PumpError::IncorrectFeeRecipient);
    }
    Ok(())
}

/// An unset allow-list entry admits every program identity.
pub proof fn lemma_unset_entry_admits_all(actual: Pubkey, expected: Pubkey)
    requires
        expected.is_default(),
    ensures
        program_admitted(actual, expected),
{
}

/// A set allow-list entry admits exactly itself.
pub proof fn lemma_set_entry_admits_itself_only(actual: Pubkey, expected: Pubkey)
    requires
        !expected.is_default(),
    ensures
        program_admitted(actual, expected) <==> actual == expected,
{
}

} // verus!
