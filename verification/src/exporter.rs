//! The metrics exporter's rendering: the registry's current aggregate
//! state as a text payload in the pull-based exposition format. The
//! listener that serves the payload on scrape lives outside the library;
//! the rendering itself is exact — each line carries the decimal value of
//! the counter it reports.

use vstd::prelude::*;
use vstd::string::StringExecFns;
use crate::metrics::{
    lemma_outcome_counts_partition, bucket_bound, spec_bucket_bound, MetricsRegistry,
    OperationMetrics, BUCKET_COUNT,
};

verus! {

/// The decimal digit character for `d`.
pub open spec fn spec_digit_char(d: int) -> char {
    if d == 0 {
        '0'
    } else if d == 1 {
        '1'
    } else if d == 2 {
        '2'
    } else if d == 3 {
        '3'
    } else if d == 4 {
        '4'
    } else if d == 5 {
        '5'
    } else if d == 6 {
        '6'
    } else if d == 7 {
        '7'
    } else if d == 8 {
        '8'
    } else {
        '9'
    }
}

/// The decimal representation of `n`, most significant digit first, with no
/// leading zeros (a single `'0'` for zero).
pub open spec fn spec_u64_chars(n: nat) -> Seq<char>
    decreases n,
{
    if n < 10 {
        seq![spec_digit_char(n as int)]
    } else {
        spec_u64_chars(n / 10).push(spec_digit_char((n % 10) as int))
    }
}

fn digit_str(d: u64) -> (s: &'static str)
    requires
        d < 10,
    ensures
        s@ =~= seq![spec_digit_char(d as int)],
{
    proof {
        reveal_strlit("0");
        reveal_strlit("1");
        reveal_strlit("2");
        reveal_strlit("3");
        reveal_strlit("4");
        reveal_strlit("5");
        reveal_strlit("6");
        reveal_strlit("7");
        reveal_strlit("8");
        reveal_strlit("9");
    }
    if d == 0 {
        "0"
    } else if d == 1 {
        "1"
    } else if d == 2 {
        "2"
    } else if d == 3 {
        "3"
    } else if d == 4 {
        "4"
    } else if d == 5 {
        "5"
    } else if d == 6 {
        "6"
    } else if d == 7 {
        "7"
    } else if d == 8 {
        "8"
    } else {
        "9"
    }
}

/// Renders `n` in decimal.
pub fn u64_to_string(n: u64) -> (s: String)
    ensures
        s@ == spec_u64_chars(n as nat),
    decreases n,
{
    let d = digit_str(n % 10);
    if n < 10 {
        d.to_owned()
    } else {
        let prefix = u64_to_string(n / 10);
        let s = prefix.concat(d);
        proof {
            assert(s@ =~= spec_u64_chars((n / 10) as nat).push(
                spec_digit_char((n % 10) as int),
            ));
        }
        s
    }
}

/// One outcome-counter line: the metric name, the operation and result
/// labels, and the decimal value.
pub open spec fn spec_counter_line(name: Seq<char>, result: Seq<char>, value: nat) -> Seq<char> {
    "calls_total{operation=\""@ + name + "\",result=\""@ + result + "\"} "@ + spec_u64_chars(value)
        + "\n"@
}

/// One histogram-bucket line: the operation label, the bucket's upper
/// bound label, and the decimal count.
pub open spec fn spec_bucket_line(name: Seq<char>, le: Seq<char>, value: nat) -> Seq<char> {
    "duration_ms_bucket{operation=\""@ + name + "\",le=\""@ + le + "\"} "@ + spec_u64_chars(value)
        + "\n"@
}

fn render_counter_line(name: &String, result: &str, value: u64) -> (s: String)
    ensures
        s@ == spec_counter_line(name@, result@, value as nat),
{
    let mut s: String = "calls_total{operation=\"".to_owned();
    s.append(name.as_str());
    s.append("\",result=\"");
    s.append(result);
    s.append("\"} ");
    let v = u64_to_string(value);
    s.append(v.as_str());
    s.append("\n");
    proof {
        assert(s@ =~= spec_counter_line(name@, result@, value as nat));
    }
    s
}

fn render_bucket_line(name: &String, le: &str, value: u64) -> (s: String)
    ensures
        s@ == spec_bucket_line(name@, le@, value as nat),
{
    let mut s: String = "duration_ms_bucket{operation=\"".to_owned();
    s.append(name.as_str());
    s.append("\",le=\"");
    s.append(le);
    s.append("\"} ");
    let v = u64_to_string(value);
    s.append(v.as_str());
    s.append("\n");
    proof {
        assert(s@ =~= spec_bucket_line(name@, le@, value as nat));
    }
    s
}

/// The first `i` histogram-bucket lines of one operation's rendering.
pub open spec fn spec_bucket_lines_upto(op: OperationMetrics, i: int) -> Seq<char>
    decreases i,
{
    if i <= 0 {
        Seq::empty()
    } else {
        spec_bucket_lines_upto(op, i - 1) + spec_bucket_line(
            op.name@,
            spec_u64_chars(spec_bucket_bound(i - 1) as nat),
            op.bucket_counts@[i - 1] as nat,
        )
    }
}

/// One operation's rendering: both outcome counters, each bounded
/// histogram bucket, and the unbounded bucket carrying the total number of
/// completed calls.
pub open spec fn spec_render_op(op: OperationMetrics) -> Seq<char> {
    spec_counter_line(op.name@, "ok"@, op.success_count as nat) + spec_counter_line(
        op.name@,
        "error"@,
        op.failure_count as nat,
    ) + spec_bucket_lines_upto(op, BUCKET_COUNT as int) + spec_bucket_line(
        op.name@,
        "+Inf"@,
        (op.success_count + op.failure_count) as nat,
    )
}

/// Renders one operation's aggregate state.
pub fn render_op(op: &OperationMetrics) -> (s: String)
    requires
        op.wf(),
        op.samples@.len() <= u64::MAX,
    ensures
        s@ == spec_render_op(*op),
{
    let mut s = render_counter_line(&op.name, "ok", op.success_count);
    let line_err = render_counter_line(&op.name, "error", op.failure_count);
    s.append(line_err.as_str());
    let ghost head = spec_counter_line(op.name@, "ok"@, op.success_count as nat)
        + spec_counter_line(op.name@, "error"@, op.failure_count as nat);
    let mut i: usize = 0;
    while i < BUCKET_COUNT
        invariant
            op.wf(),
            i <= BUCKET_COUNT,
            s@ == head + spec_bucket_lines_upto(*op, i as int),
        decreases BUCKET_COUNT - i,
    {
        let bound = bucket_bound(i);
        let le = u64_to_string(bound);
        let line = render_bucket_line(&op.name, le.as_str(), op.bucket_counts[i]);
        s.append(line.as_str());
        proof {
            assert(s@ =~= head + spec_bucket_lines_upto(*op, i + 1));
        }
        i = i + 1;
    }
    proof {
        lemma_outcome_counts_partition(op.samples@);
    }
    let total = op.success_count + op.failure_count;
    let line_inf = render_bucket_line(&op.name, "+Inf", total);
    s.append(line_inf.as_str());
    proof {
        assert(s@ =~= spec_render_op(*op));
    }
    s
}

/// The rendering of the first `i` operations of the registry.
pub open spec fn spec_render_upto(ops: Seq<OperationMetrics>, i: int) -> Seq<char>
    decreases i,
{
    if i <= 0 {
        Seq::empty()
    } else {
        spec_render_upto(ops, i - 1) + spec_render_op(ops[i - 1])
    }
}

/// The full scrape payload: every registered operation's aggregate state,
/// in registration order.
pub open spec fn spec_render(r: MetricsRegistry) -> Seq<char> {
    spec_render_upto(r.ops@, r.ops@.len() as int)
}

/// Renders the registry's current aggregate state as the text payload the
/// exporter returns on each scrape.
pub fn render(registry: &MetricsRegistry) -> (s: String)
    requires
        registry.wf(),
        forall|i: int|
            0 <= i < registry.ops@.len() ==> (#[trigger] registry.ops@[i]).samples@.len()
                <= u64::MAX,
    ensures
        s@ == spec_render(*registry),
{
    let mut s = String::new();
    let mut i: usize = 0;
    while i < registry.ops.len()
        invariant
            registry.wf(),
            forall|j: int|
                0 <= j < registry.ops@.len() ==> (#[trigger] registry.ops@[j]).samples@.len()
                    <= u64::MAX,
            i <= registry.ops@.len(),
            s@ == spec_render_upto(registry.ops@, i as int),
        decreases registry.ops@.len() - i,
    {
        let part = render_op(&registry.ops[i]);
        s.append(part.as_str());
        proof {
            assert(s@ =~= spec_render_upto(registry.ops@, i + 1));
        }
        i = i + 1;
    }
    s
}

} // verus!
