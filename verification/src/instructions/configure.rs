//! Creation and replacement of the configuration record.

use vstd::prelude::*;
use crate::errors::PumpError;
use crate::pubkey::Pubkey;
use crate::states::Config;
use crate::utils::guards::ensure_admin;

verus! {

/// The caller and the record that `configure` works on.
#[derive(Clone, Copy, Debug, PartialEq, Eq)]
pub struct Configure {
    /// The caller.
    pub admin: Pubkey,
    /// The record as it stands; its authority is the default identity while
    /// it has never been written.
    pub global_config: Config,
}

impl Configure {
    /// The failure that `configure` reports, if it reports one: a record that
    /// has an authority is replaced by that authority only.
    pub open spec fn rejection(&self) -> Option<PumpError> {
        if !self.global_config.authority.is_default() && self.admin
            != self.global_config.authority {
            Some(PumpError::NotAuthorized)
        } else {
            None
        }
    }

    /// Replaces the whole record by `new_config`, or reports `NotAuthorized`
    /// and leaves it as it was.
    pub fn process(&mut self, new_config: Config) -> (configured: Result<(), PumpError>)
        ensures
            match old(self).rejection() {
                Some(failure) => configured == Err::<(), PumpError>(failure) && *final(self)
                    == *old(self),
                None => configured == Ok::<(), PumpError>(()) && *final(self) == (Configure {
                    admin: old(self).admin,
                    global_config: new_config,
                }),
            },
    {
        if !self.global_config.authority.is_unset() {
            match ensure_admin(&self.global_config, &self.admin) {
                Ok(()) => {},
                Err(failure) => {
                    return Err(failure);
                },
            }
        }
        self.global_config = new_config;
        Ok(())
    }
}

/// A record that has never been written is written by any caller.
pub proof fn lemma_first_configure_is_open(ctx: Configure)
    requires
        ctx.global_config.authority.is_default(),
    ensures
        ctx.rejection() is None,
{
}

/// Once a record has an authority, `configure` is open to that authority and
/// to nobody else.
pub proof fn lemma_configure_is_admin_only(ctx: Configure)
    requires
        !ctx.global_config.authority.is_default(),
    ensures
        ctx.rejection() is None <==> ctx.admin == ctx.global_config.authority,
{
}

} // verus!
