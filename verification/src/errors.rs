//! The failures that an operation reports to its caller.

use vstd::prelude::*;
use vstd::std_specs::convert::FromSpecImpl;

verus! {

/// Why the guard layer, or an operation's own check, turned a request down.
#[derive(Clone, Copy, Debug, PartialEq, Eq, Structural)]
pub enum PumpError {
    /// The operation is closed while the deployment, or its kind of request, is paused.
    ProgramPaused,
    /// A migration has already completed for this deployment.
    ProgramCompleted,
    /// The caller is not the configured authority.
    NotAuthorized,
    /// A supplied program identity differs from the allow-listed one.
    UnexpectedProgramId,
    /// The curve has already been migrated.
    CurveAlreadyCompleted,
    /// A supplied fee recipient differs from the configured one.
    IncorrectFeeRecipient,
}

/// Why a release of reserves was turned down.
#[derive(Clone, Copy, Debug, PartialEq, Eq, Structural)]
pub enum ReleaseReservesError {
    /// The curve has not reached the end of its lifecycle stage.
    CurveNotCompleted,
}

/// The failure of a migration or of a release: every failure is terminal for
/// the operation and leaves all records as they were.
#[derive(Clone, Copy, Debug, PartialEq, Eq, Structural)]
pub enum LifecycleError {
    /// A guard turned the request down.
    Guard(PumpError),
    /// The curve is not in the state that the operation needs.
    Curve(ReleaseReservesError),
}

impl From<PumpError> for LifecycleError {
    fn from(error: PumpError) -> (failure: LifecycleError) {
        LifecycleError::Guard(error)
    }
}

impl FromSpecImpl<PumpError> for LifecycleError {
    open spec fn obeys_from_spec() -> bool {
        true
    }

    open spec fn from_spec(error: PumpError) -> LifecycleError {
        LifecycleError::Guard(error)
    }
}

impl From<ReleaseReservesError> for LifecycleError {
    fn from(error: ReleaseReservesError) -> (failure: LifecycleError) {
        LifecycleError::Curve(error)
    }
}

impl FromSpecImpl<ReleaseReservesError> for LifecycleError {
    open spec fn obeys_from_spec() -> bool {
        true
    }

    open spec fn from_spec(error: ReleaseReservesError) -> LifecycleError {
        LifecycleError::Curve(error)
    }
}

} // verus!
