//! The operations, one module each.

pub mod configure;
pub mod migrate;
pub mod release_reserves;

pub use configure::Configure;
pub use migrate::{Migrate, MigrationCompleted, WrappedNative};
pub use release_reserves::{
    ReleaseOutcome, ReleasePolicy, ReleaseReserves, ReservesReleased, TokenSweep,
};
pub use crate::errors::ReleaseReservesError;
