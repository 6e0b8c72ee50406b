//! The shutdown coordinator: a one-shot process-wide signal, and the
//! lifecycle of each listening service once the signal is observed. A
//! draining service is given a bounded, service-specific grace period to
//! finish in-flight work; it stops cleanly if the work completes first, and
//! is forced to stop when the period elapses. Time is the caller's
//! monotonic clock, in milliseconds.

use vstd::prelude::*;

verus! {

/// Where one listening service stands in its lifecycle. A service accepts
/// new work only while `Armed`; once the shutdown signal is observed it
/// drains, then stops either cleanly or by force. A service whose listener
/// fails outright (for example, its port cannot be bound) moves to
/// `Failed`.
#[derive(Clone, Copy, Debug, PartialEq, Eq, Structural)]
pub enum ServiceState {
    Armed,
    Draining,
    StoppedClean,
    StoppedForced,
    Failed,
}

/// One running listener: its lifecycle state, its grace period, the instant
/// its drain is forced (meaningful only while draining), and how many calls
/// it is currently serving.
#[derive(Clone, Copy, Debug, PartialEq, Eq, Structural)]
pub struct ServiceHandle {
    pub state: ServiceState,
    /// Bounded time a draining service is given to finish in-flight work.
    pub grace_period_ms: u64,
    /// Instant at which a draining service is forced to stop.
    pub deadline_ms: u64,
    /// Number of calls currently in flight.
    pub in_flight: u64,
}

impl ServiceHandle {
    /// The service has reached a terminal state.
    pub open spec fn is_stopped(self) -> bool {
        self.state is StoppedClean || self.state is StoppedForced || self.state is Failed
    }

    /// The state after the shutdown signal is observed at `now_ms`: the
    /// service stops accepting new work and its grace deadline is fixed.
    pub open spec fn spec_begin_drain(self, now_ms: u64) -> ServiceHandle
        recommends
            now_ms + self.grace_period_ms <= u64::MAX,
    {
        ServiceHandle {
            state: ServiceState::Draining,
            deadline_ms: (now_ms + self.grace_period_ms) as u64,
            ..self
        }
    }

    /// The state after one in-flight call completes.
    pub open spec fn spec_complete_one(self) -> ServiceHandle
        recommends
            self.in_flight > 0,
    {
        ServiceHandle { in_flight: (self.in_flight - 1) as u64, ..self }
    }

    /// The state a draining service reaches when examined at `now_ms`:
    /// stopped cleanly once no work is in flight, stopped by force once the
    /// grace deadline has passed with work still in flight (that work is
    /// abandoned), and still draining otherwise.
    pub open spec fn spec_poll_drain(self, now_ms: u64) -> ServiceHandle {
        if self.in_flight == 0 {
            ServiceHandle { state: ServiceState::StoppedClean, ..self }
        } else if now_ms >= self.deadline_ms {
            ServiceHandle { state: ServiceState::StoppedForced, in_flight: 0, ..self }
        } else {
            self
        }
    }

    /// A fresh handle for a listener that is up and accepting work.
    pub fn new(grace_period_ms: u64) -> (h: ServiceHandle)
        ensures
            h == (ServiceHandle {
                state: ServiceState::Armed,
                grace_period_ms,
                deadline_ms: 0,
                in_flight: 0,
            }),
    {
        ServiceHandle { state: ServiceState::Armed, grace_period_ms, deadline_ms: 0, in_flight: 0 }
    }

    /// One new inbound call is accepted; only an armed service takes new
    /// work.
    pub fn accept(&mut self)
        requires
            old(self).state is Armed,
            old(self).in_flight < u64::MAX,
        ensures
            *final(self) == (ServiceHandle { in_flight: (old(self).in_flight + 1) as u64, ..*old(self) }),
    {
        self.in_flight = self.in_flight + 1;
    }

    /// One in-flight call completes. Completion is possible while armed or
    /// draining; a stopped service has no in-flight work left.
    pub fn complete_one(&mut self)
        requires
            old(self).in_flight > 0,
            old(self).state is Armed || old(self).state is Draining,
        ensures
            *final(self) == old(self).spec_complete_one(),
    {
        self.in_flight = self.in_flight - 1;
    }

    /// The service observes the shutdown signal at `now_ms`: it stops
    /// accepting new work immediately and begins draining, with its forced
    /// deadline one grace period away.
    pub fn begin_drain(&mut self, now_ms: u64)
        requires
            old(self).state is Armed,
            now_ms + old(self).grace_period_ms <= u64::MAX,
        ensures
            *final(self) == old(self).spec_begin_drain(now_ms),
            final(self).state is Draining,
            final(self).deadline_ms == now_ms + old(self).grace_period_ms,
            final(self).in_flight == old(self).in_flight,
    {
        self.state = ServiceState::Draining;
        self.deadline_ms = now_ms + self.grace_period_ms;
    }

    /// A draining service examines the clock: it stops cleanly once all
    /// in-flight work is done, is forced to stop (abandoning the remaining
    /// work) once the grace deadline has passed, and otherwise keeps
    /// draining.
    pub fn poll_drain(&mut self, now_ms: u64)
        requires
            old(self).state is Draining,
        ensures
            *final(self) == old(self).spec_poll_drain(now_ms),
            old(self).in_flight == 0 ==> final(self).state is StoppedClean,
            old(self).in_flight > 0 && now_ms >= old(self).deadline_ms ==> final(self).state
                is StoppedForced && final(self).in_flight == 0,
            old(self).in_flight > 0 && now_ms < old(self).deadline_ms ==> *final(self) == *old(
                self,
            ),
    {
        if self.in_flight == 0 {
            self.state = ServiceState::StoppedClean;
        } else if now_ms >= self.deadline_ms {
            self.state = ServiceState::StoppedForced;
            self.in_flight = 0;
        }
    }

    /// The listener fails outright (startup or bind error); the handle is
    /// terminal and the failure propagates process-wide.
    pub fn fail(&mut self)
        requires
            old(self).state is Armed,
        ensures
            *final(self) == (ServiceHandle { state: ServiceState::Failed, ..*old(self) }),
    {
        self.state = ServiceState::Failed;
    }
}

/// The process-wide shutdown signal: armed at process start, triggered at
/// most once in effect — triggering is idempotent — and observed by every
/// service independently.
#[derive(Clone, Copy, Debug, PartialEq, Eq, Structural)]
pub struct ShutdownSignal {
    pub triggered: bool,
}

/// The signal after a trigger: triggered, whatever it was before.
pub open spec fn spec_trigger(s: ShutdownSignal) -> ShutdownSignal {
    ShutdownSignal { triggered: true }
}

impl ShutdownSignal {
    /// A fresh signal: armed, not yet triggered.
    pub fn new() -> (s: ShutdownSignal)
        ensures
            !s.triggered,
    {
        ShutdownSignal { triggered: false }
    }

    /// Triggers the signal. The resulting state does not depend on the
    /// prior one, so a second trigger has no additional effect.
    pub fn trigger(&mut self)
        ensures
            *final(self) == spec_trigger(*old(self)),
            final(self).triggered,
    {
        self.triggered = true;
    }

    /// Whether the signal has been triggered.
    pub fn is_triggered(&self) -> (b: bool)
        ensures
            b == self.triggered,
    {
        self.triggered
    }
}

/// Triggering the shutdown signal is one-shot and idempotent: triggering it
/// again leaves it exactly as the first trigger left it.
pub proof fn lemma_trigger_idempotent(s: ShutdownSignal)
    ensures
        spec_trigger(spec_trigger(s)) == spec_trigger(s),
{
}

/// Triggering the shutdown signal while neither service has work in flight
/// stops both services cleanly: whenever each next examines the clock —
/// in particular before its grace deadline — it is already done draining.
pub proof fn lemma_idle_shutdown_both_clean(
    rpc: ServiceHandle,
    metrics: ServiceHandle,
    trigger_ms: u64,
    rpc_poll_ms: u64,
    metrics_poll_ms: u64,
)
    requires
        rpc.state is Armed,
        metrics.state is Armed,
        rpc.in_flight == 0,
        metrics.in_flight == 0,
        trigger_ms + rpc.grace_period_ms <= u64::MAX,
        trigger_ms + metrics.grace_period_ms <= u64::MAX,
    ensures
        rpc.spec_begin_drain(trigger_ms).spec_poll_drain(rpc_poll_ms).state is StoppedClean,
        metrics.spec_begin_drain(trigger_ms).spec_poll_drain(metrics_poll_ms).state
            is StoppedClean,
{
}

/// A draining service whose remaining call is still running when the grace
/// deadline passes is forced to stop, abandoning that call; one whose call
/// completes first stops cleanly.
pub proof fn lemma_grace_period_outcomes(
    delayed: ServiceHandle,
    prompt: ServiceHandle,
    delayed_poll_ms: u64,
    prompt_poll_ms: u64,
)
    requires
        delayed.state is Draining,
        delayed.in_flight == 1,
        delayed_poll_ms >= delayed.deadline_ms,
        prompt.state is Draining,
        prompt.in_flight == 1,
    ensures
        delayed.spec_poll_drain(delayed_poll_ms).state is StoppedForced,
        delayed.spec_poll_drain(delayed_poll_ms).in_flight == 0,
        prompt.spec_complete_one().spec_poll_drain(prompt_poll_ms).state is StoppedClean,
{
}

} // verus!
