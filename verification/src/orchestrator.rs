//! The process orchestrator's decisions: the two listeners run as
//! independent concurrent tasks, and whichever stops first — cleanly,
//! forced, or by failing — triggers the shutdown signal for the other. The
//! process exit status distinguishes a clean coordinated shutdown from each
//! failure cause.

use vstd::prelude::*;
use crate::shutdown::{ServiceHandle, ServiceState, ShutdownSignal, spec_trigger};

verus! {

/// How one listener's run ended.
#[derive(Clone, Copy, Debug, PartialEq, Eq, Structural)]
pub enum ServiceOutcome {
    /// All in-flight work finished within the grace period.
    Clean,
    /// The grace period elapsed with work still in flight.
    Forced,
    /// The listener failed outright (for example, it could not bind).
    Failed,
}

/// The outcome a terminal handle state denotes; a service that is still
/// armed or draining has none yet.
pub open spec fn spec_outcome_of(state: ServiceState) -> Option<ServiceOutcome> {
    match state {
        ServiceState::StoppedClean => Some(ServiceOutcome::Clean),
        ServiceState::StoppedForced => Some(ServiceOutcome::Forced),
        ServiceState::Failed => Some(ServiceOutcome::Failed),
        ServiceState::Armed => None,
        ServiceState::Draining => None,
    }
}

/// Reads the completion outcome off a handle, if it has stopped.
pub fn outcome_of(handle: &ServiceHandle) -> (r: Option<ServiceOutcome>)
    ensures
        r == spec_outcome_of(handle.state),
        r is Some <==> handle.is_stopped(),
{
    match handle.state {
        ServiceState::StoppedClean => Some(ServiceOutcome::Clean),
        ServiceState::StoppedForced => Some(ServiceOutcome::Forced),
        ServiceState::Failed => Some(ServiceOutcome::Failed),
        ServiceState::Armed => None,
        ServiceState::Draining => None,
    }
}

/// Whichever service stops first — for any reason — triggers the shutdown
/// signal so the other service begins draining too.
pub fn propagate_first_stop(signal: &mut ShutdownSignal, first_outcome: &ServiceOutcome)
    ensures
        *final(signal) == spec_trigger(*old(signal)),
        final(signal).triggered,
{
    signal.trigger();
}

/// The process exit status for a pair of service outcomes: zero only for a
/// clean coordinated shutdown, one when a listener failed, two when a
/// service had to be forced at its grace deadline.
pub open spec fn spec_exit_code(rpc: ServiceOutcome, metrics: ServiceOutcome) -> i32 {
    if rpc is Failed || metrics is Failed {
        1
    } else if rpc is Forced || metrics is Forced {
        2
    } else {
        0
    }
}

/// Computes the process exit status once both services have stopped.
pub fn exit_code(rpc: &ServiceOutcome, metrics: &ServiceOutcome) -> (code: i32)
    ensures
        code == spec_exit_code(*rpc, *metrics),
        code == 0 <==> (rpc is Clean && metrics is Clean),
        code == 1 <==> (rpc is Failed || metrics is Failed),
        code == 2 <==> (!(rpc is Failed || metrics is Failed) && (rpc is Forced || metrics
            is Forced)),
    {
    if matches!(rpc, ServiceOutcome::Failed) || matches!(metrics, ServiceOutcome::Failed) {
        1
    } else if matches!(rpc, ServiceOutcome::Forced) || matches!(metrics, ServiceOutcome::Forced) {
        2
    } else {
        0
    }
}

/// A listener that fails (for example, its port is already occupied)
/// triggers the shutdown signal for the other service, and the process
/// exits non-zero whatever the other service's outcome is.
pub proof fn lemma_failure_propagates(signal: ShutdownSignal, other: ServiceOutcome)
    ensures
        spec_trigger(signal).triggered,
        spec_exit_code(ServiceOutcome::Failed, other) != 0,
        spec_exit_code(other, ServiceOutcome::Failed) != 0,
{
}

} // verus!
