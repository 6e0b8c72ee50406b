//! Service-level objectives: declared targets for success rate and latency
//! that instrumentation measures compliance against. An objective is pure
//! data, immutable once declared, and safe to share read-only across all
//! call sites.

use vstd::prelude::*;

verus! {

/// Fractions of calls (success rates, percentiles) are expressed in parts
/// per ten thousand, so that a target such as 99.9% is the exact integer
/// 9990.
pub const TARGET_SCALE: u64 = 10000;

/// A service-level objective for a named class of operations: the fraction
/// of calls that must succeed, and a latency bound that a fraction of calls
/// must stay under.
pub struct Objective {
    pub name: String,
    /// Required success rate, in parts per ten thousand of calls.
    pub success_rate_target: u64,
    /// Latency bound, in milliseconds.
    pub latency_target_ms: u64,
    /// Fraction of calls that must meet the latency bound, in parts per ten
    /// thousand.
    pub latency_percentile: u64,
}

impl Objective {
    /// The declared targets are meaningful: each fraction lies in (0, 1]
    /// and the latency bound is a positive duration.
    pub open spec fn wf(self) -> bool {
        &&& 0 < self.success_rate_target <= TARGET_SCALE
        &&& 0 < self.latency_target_ms
        &&& 0 < self.latency_percentile <= TARGET_SCALE
    }

    /// Declares an objective. Targets outside their ranges are a
    /// programming error caught at startup, so they are excluded here
    /// rather than reported.
    pub fn declare(
        name: String,
        success_rate_target: u64,
        latency_target_ms: u64,
        latency_percentile: u64,
    ) -> (o: Objective)
        requires
            0 < success_rate_target <= TARGET_SCALE,
            0 < latency_target_ms,
            0 < latency_percentile <= TARGET_SCALE,
        ensures
            o.wf(),
            o.name@ == name@,
            o.success_rate_target == success_rate_target,
            o.latency_target_ms == latency_target_ms,
            o.latency_percentile == latency_percentile,
    {
        Objective { name, success_rate_target, latency_target_ms, latency_percentile }
    }
}

/// The objective the RPC operations are instrumented against: 99.9% of
/// calls must succeed, and 99% of calls must finish within 750 ms.
pub fn api_slo() -> (o: Objective)
    ensures
        o.wf(),
        o.name@ == "grpc"@,
        o.success_rate_target == 9990,
        o.latency_target_ms == 750,
        o.latency_percentile == 9900,
{
    Objective::declare("grpc".to_owned(), 9990, 750, 9900)
}

} // verus!
