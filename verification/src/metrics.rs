//! The metrics registry: per-operation outcome counters and cumulative
//! latency histograms, fed by the instrumented handler at call completion
//! and read by the exporter on scrape. Beside each aggregate the registry
//! carries the (ghost) sequence of every sample recorded, and
//! well-formedness ties each counter to an exact count over that sequence:
//! recording a completion appends exactly one sample, so the aggregates can
//! neither lose nor double-count a call.

use vstd::prelude::*;
use crate::objective::Objective;

verus! {

/// The outcome of one completed call.
#[derive(Clone, Copy, Debug, PartialEq, Eq, Structural)]
pub enum Outcome {
    Success,
    Failure,
}

/// One observation, recorded when a call completes: its outcome and its
/// elapsed duration.
#[derive(Clone, Copy, Debug, PartialEq, Eq, Structural)]
pub struct MetricSample {
    pub outcome: Outcome,
    pub duration_ms: u64,
}

/// Number of latency histogram buckets kept per operation.
pub const BUCKET_COUNT: usize = 5;

/// The upper bound, in milliseconds, of each histogram bucket. The count of
/// all samples serves as the unbounded final bucket.
pub open spec fn spec_bucket_bound(i: int) -> u64 {
    if i == 0 {
        100
    } else if i == 1 {
        250
    } else if i == 2 {
        500
    } else if i == 3 {
        750
    } else {
        1000
    }
}

/// The upper bound, in milliseconds, of histogram bucket `i`.
pub fn bucket_bound(i: usize) -> (b: u64)
    requires
        i < BUCKET_COUNT,
    ensures
        b == spec_bucket_bound(i as int),
{
    if i == 0 {
        100
    } else if i == 1 {
        250
    } else if i == 2 {
        500
    } else if i == 3 {
        750
    } else {
        1000
    }
}

/// How many samples in `s` have the outcome `o`.
pub open spec fn count_outcome(s: Seq<MetricSample>, o: Outcome) -> nat
    decreases s.len(),
{
    if s.len() == 0 {
        0
    } else {
        count_outcome(s.drop_last(), o) + if s.last().outcome == o {
            1nat
        } else {
            0nat
        }
    }
}

/// How many samples in `s` took at most `bound_ms`.
pub open spec fn count_within(s: Seq<MetricSample>, bound_ms: u64) -> nat
    decreases s.len(),
{
    if s.len() == 0 {
        0
    } else {
        count_within(s.drop_last(), bound_ms) + if s.last().duration_ms <= bound_ms {
            1nat
        } else {
            0nat
        }
    }
}

pub proof fn lemma_count_outcome_le_len(s: Seq<MetricSample>, o: Outcome)
    ensures
        count_outcome(s, o) <= s.len(),
    decreases s.len(),
{
    if s.len() > 0 {
        lemma_count_outcome_le_len(s.drop_last(), o);
    }
}

pub proof fn lemma_count_within_le_len(s: Seq<MetricSample>, bound_ms: u64)
    ensures
        count_within(s, bound_ms) <= s.len(),
    decreases s.len(),
{
    if s.len() > 0 {
        lemma_count_within_le_len(s.drop_last(), bound_ms);
    }
}

pub proof fn lemma_count_outcome_push(s: Seq<MetricSample>, o: Outcome, x: MetricSample)
    ensures
        count_outcome(s.push(x), o) == count_outcome(s, o) + if x.outcome == o {
            1nat
        } else {
            0nat
        },
{
    assert(s.push(x).drop_last() =~= s);
    assert(s.push(x).last() == x);
}

pub proof fn lemma_count_within_push(s: Seq<MetricSample>, bound_ms: u64, x: MetricSample)
    ensures
        count_within(s.push(x), bound_ms) == count_within(s, bound_ms) + if x.duration_ms
            <= bound_ms {
            1nat
        } else {
            0nat
        },
{
    assert(s.push(x).drop_last() =~= s);
    assert(s.push(x).last() == x);
}

/// Every sample is exactly one of success or failure, so the two outcome
/// counts always add up to the number of samples recorded.
pub proof fn lemma_outcome_counts_partition(s: Seq<MetricSample>)
    ensures
        count_outcome(s, Outcome::Success) + count_outcome(s, Outcome::Failure) == s.len(),
    decreases s.len(),
{
    if s.len() > 0 {
        lemma_outcome_counts_partition(s.drop_last());
    }
}

/// A scrape taken after any number of completed calls reports outcome
/// counters whose sum equals exactly the number of calls recorded: in any
/// well-formed aggregate, success count plus failure count is the number of
/// samples.
pub proof fn lemma_scrape_sum_equals_calls(op: OperationMetrics)
    requires
        op.wf(),
    ensures
        op.success_count + op.failure_count == op.samples@.len(),
{
    lemma_outcome_counts_partition(op.samples@);
}

/// Aggregated state for one named operation: outcome totals and a
/// cumulative latency histogram, with the ghost sequence of every sample
/// recorded under the operation.
pub struct OperationMetrics {
    pub name: String,
    pub objective: Objective,
    pub success_count: u64,
    pub failure_count: u64,
    /// Entry `i` counts the samples whose duration is at most
    /// `spec_bucket_bound(i)`.
    pub bucket_counts: Vec<u64>,
    pub samples: Ghost<Seq<MetricSample>>,
}

impl OperationMetrics {
    /// Every aggregate equals the exact count it stands for over the
    /// recorded samples.
    pub open spec fn wf(self) -> bool {
        &&& self.objective.wf()
        &&& self.success_count == count_outcome(self.samples@, Outcome::Success)
        &&& self.failure_count == count_outcome(self.samples@, Outcome::Failure)
        &&& self.bucket_counts@.len() == BUCKET_COUNT
        &&& forall|i: int|
            0 <= i < BUCKET_COUNT ==> self.bucket_counts@[i] == count_within(
                self.samples@,
                spec_bucket_bound(i),
            )
    }

    /// A fresh aggregate for one operation: no samples, every count zero.
    pub fn new(name: String, objective: Objective) -> (m: OperationMetrics)
        requires
            objective.wf(),
        ensures
            m.wf(),
            m.name@ == name@,
            m.objective == objective,
            m.samples@ == Seq::<MetricSample>::empty(),
            m.success_count == 0,
            m.failure_count == 0,
    {
        let mut bucket_counts: Vec<u64> = Vec::new();
        let mut i: usize = 0;
        while i < BUCKET_COUNT
            invariant
                i <= BUCKET_COUNT,
                bucket_counts@.len() == i,
                forall|j: int| 0 <= j < i ==> bucket_counts@[j] == 0,
            decreases BUCKET_COUNT - i,
        {
            bucket_counts.push(0);
            i = i + 1;
        }
        OperationMetrics {
            name,
            objective,
            success_count: 0,
            failure_count: 0,
            bucket_counts,
            samples: Ghost(Seq::empty()),
        }
    }

    /// Records the completion of one call: exactly one sample is appended,
    /// and every aggregate moves to match the extended sequence.
    pub fn record(&mut self, sample: MetricSample)
        requires
            old(self).wf(),
            old(self).samples@.len() < u64::MAX,
        ensures
            final(self).wf(),
            final(self).samples@ == old(self).samples@.push(sample),
            final(self).name@ == old(self).name@,
            final(self).objective == old(self).objective,
            final(self).success_count + final(self).failure_count == old(self).success_count + old(
                self,
            ).failure_count + 1,
            sample.outcome is Success ==> final(self).success_count == old(self).success_count + 1
                && final(self).failure_count == old(self).failure_count,
            sample.outcome is Failure ==> final(self).failure_count == old(self).failure_count + 1
                && final(self).success_count == old(self).success_count,
    {
        proof {
            lemma_count_outcome_le_len(self.samples@, Outcome::Success);
            lemma_count_outcome_le_len(self.samples@, Outcome::Failure);
            lemma_count_outcome_push(self.samples@, Outcome::Success, sample);
            lemma_count_outcome_push(self.samples@, Outcome::Failure, sample);
        }
        match sample.outcome {
            Outcome::Success => {
                self.success_count = self.success_count + 1;
            },
            Outcome::Failure => {
                self.failure_count = self.failure_count + 1;
            },
        }
        let mut i: usize = 0;
        while i < BUCKET_COUNT
            invariant
                i <= BUCKET_COUNT,
                self.bucket_counts@.len() == BUCKET_COUNT,
                old(self).samples@.len() < u64::MAX,
                self.samples == old(self).samples,
                forall|j: int|
                    0 <= j < BUCKET_COUNT ==> old(self).bucket_counts@[j] == count_within(
                        old(self).samples@,
                        spec_bucket_bound(j),
                    ),
                forall|j: int|
                    i <= j < BUCKET_COUNT ==> self.bucket_counts@[j] == old(
                        self,
                    ).bucket_counts@[j],
                forall|j: int|
                    0 <= j < i ==> self.bucket_counts@[j] == count_within(
                        old(self).samples@.push(sample),
                        spec_bucket_bound(j),
                    ),
                self.name == old(self).name,
                self.objective == old(self).objective,
                self.success_count == count_outcome(
                    old(self).samples@.push(sample),
                    Outcome::Success,
                ),
                self.failure_count == count_outcome(
                    old(self).samples@.push(sample),
                    Outcome::Failure,
                ),
            decreases BUCKET_COUNT - i,
        {
            proof {
                lemma_count_within_le_len(old(self).samples@, spec_bucket_bound(i as int));
                lemma_count_within_push(old(self).samples@, spec_bucket_bound(i as int), sample);
            }
            if sample.duration_ms <= bucket_bound(i) {
                let c = self.bucket_counts[i];
                self.bucket_counts[i] = c + 1;
            }
            i = i + 1;
        }
        self.samples = Ghost(self.samples@.push(sample));
    }
}

/// The process-wide metrics registry: one aggregate per registered
/// operation, names unique. The instrumented handler is its only writer;
/// the exporter only reads it.
pub struct MetricsRegistry {
    pub ops: Vec<OperationMetrics>,
}

impl MetricsRegistry {
    /// Every aggregate is well formed and operation names are unique.
    pub open spec fn wf(self) -> bool {
        &&& forall|i: int| 0 <= i < self.ops@.len() ==> (#[trigger] self.ops@[i]).wf()
        &&& forall|i: int, j: int|
            0 <= i < j < self.ops@.len() ==> self.ops@[i].name@ != self.ops@[j].name@
    }

    /// An empty registry.
    pub fn new() -> (r: MetricsRegistry)
        ensures
            r.wf(),
            r.ops@.len() == 0,
    {
        MetricsRegistry { ops: Vec::new() }
    }

    /// The index of the operation registered under `name`, if any.
    pub fn find(&self, name: &String) -> (r: Option<usize>)
        ensures
            match r {
                Some(i) => i < self.ops@.len() && self.ops@[i as int].name@ == name@,
                None => forall|i: int| 0 <= i < self.ops@.len() ==> self.ops@[i].name@ != name@,
            },
    {
        let mut i: usize = 0;
        while i < self.ops.len()
            invariant
                i <= self.ops@.len(),
                forall|j: int| 0 <= j < i ==> self.ops@[j].name@ != name@,
            decreases self.ops@.len() - i,
        {
            if self.ops[i].name.eq(name) {
                return Some(i);
            }
            i = i + 1;
        }
        None
    }

    /// Registers an operation under an objective and returns its index;
    /// `None` exactly when the name is already taken, leaving the registry
    /// unchanged.
    pub fn register(&mut self, name: String, objective: Objective) -> (r: Option<usize>)
        requires
            old(self).wf(),
            objective.wf(),
        ensures
            final(self).wf(),
            r is None ==> *final(self) == *old(self) && exists|i: int|
                0 <= i < old(self).ops@.len() && old(self).ops@[i].name@ == name@,
            r is Some ==> {
                &&& r->Some_0 == old(self).ops@.len()
                &&& final(self).ops@.len() == old(self).ops@.len() + 1
                &&& forall|i: int|
                    0 <= i < old(self).ops@.len() ==> final(self).ops@[i] == old(self).ops@[i]
                        && old(self).ops@[i].name@ != name@
                &&& final(self).ops@[r->Some_0 as int].name@ == name@
                &&& final(self).ops@[r->Some_0 as int].objective == objective
                &&& final(self).ops@[r->Some_0 as int].samples@ == Seq::<MetricSample>::empty()
            },
    {
        match self.find(&name) {
            Some(_) => None,
            None => {
                let idx = self.ops.len();
                self.ops.push(OperationMetrics::new(name, objective));
                Some(idx)
            },
        }
    }

    /// Records the completion of one call under the operation at
    /// `op_index`: exactly one sample is appended there, and every other
    /// operation's aggregate is untouched.
    pub fn record_completion(&mut self, op_index: usize, outcome: Outcome, elapsed_ms: u64)
        requires
            old(self).wf(),
            op_index < old(self).ops@.len(),
            old(self).ops@[op_index as int].samples@.len() < u64::MAX,
        ensures
            final(self).wf(),
            final(self).ops@.len() == old(self).ops@.len(),
            final(self).ops@[op_index as int].samples@ == old(self).ops@[op_index as int].samples@
                .push(MetricSample { outcome, duration_ms: elapsed_ms }),
            final(self).ops@[op_index as int].name@ == old(self).ops@[op_index as int].name@,
            final(self).ops@[op_index as int].success_count
                + final(self).ops@[op_index as int].failure_count
                == old(self).ops@[op_index as int].success_count
                + old(self).ops@[op_index as int].failure_count + 1,
            outcome is Success ==> final(self).ops@[op_index as int].success_count
                == old(self).ops@[op_index as int].success_count + 1
                && final(self).ops@[op_index as int].failure_count
                == old(self).ops@[op_index as int].failure_count,
            outcome is Failure ==> final(self).ops@[op_index as int].failure_count
                == old(self).ops@[op_index as int].failure_count + 1
                && final(self).ops@[op_index as int].success_count
                == old(self).ops@[op_index as int].success_count,
            forall|i: int|
                0 <= i < old(self).ops@.len() && i != op_index
                    ==> final(self).ops@[i] == old(self).ops@[i],
    {
        let sample = MetricSample { outcome, duration_ms: elapsed_ms };
        let mut op = self.ops.remove(op_index);
        op.record(sample);
        self.ops.insert(op_index, op);
        proof {
            assert(final(self).ops@ =~= old(self).ops@.update(
                op_index as int,
                final(self).ops@[op_index as int],
            ));
        }
    }

    /// The total number of completed calls an operation's aggregate
    /// reports: its success count plus its failure count. By
    /// well-formedness this equals the number of samples recorded.
    pub fn completed_total(&self, op_index: usize) -> (n: u64)
        requires
            self.wf(),
            op_index < self.ops@.len(),
            self.ops@[op_index as int].samples@.len() <= u64::MAX,
        ensures
            n == self.ops@[op_index as int].samples@.len(),
            n == self.ops@[op_index as int].success_count + self.ops@[op_index as int]
                .failure_count,
    {
        proof {
            lemma_outcome_counts_partition(self.ops@[op_index as int].samples@);
        }
        let op = &self.ops[op_index];
        op.success_count + op.failure_count
    }
}

} // verus!
