//! The example RPC operation and the instrumented request handler. The
//! handler is middleware applied at the call site: it passes the business
//! result through unchanged and records exactly one metric sample — success
//! or failure, with the call's elapsed time — before control returns to the
//! caller.

use vstd::prelude::*;
use vstd::string::StringExecFns;
use crate::metrics::{MetricSample, MetricsRegistry, Outcome};

verus! {

/// A `greet` request: a caller identifier and a name to greet.
#[derive(Debug)]
pub struct HelloReq {
    pub id: i64,
    pub name: String,
}

/// A `greet` reply: the greeting message, and the caller's name echoed
/// back.
#[derive(Debug)]
pub struct HelloReply {
    pub message: String,
    pub name: String,
}

/// The greeter service: one operation, `say_hello`.
#[derive(Debug, Default)]
pub struct GreeterImpl {}

impl GreeterImpl {
    /// The business operation behind the RPC surface: greets the caller by
    /// name. The reply message is `"hello,"` followed by the name, and the
    /// name field echoes the input unchanged.
    pub fn say_hello(&self, req: &HelloReq) -> (reply: HelloReply)
        ensures
            reply.message@ == "hello,"@ + req.name@,
            reply.name@ == req.name@,
    {
        let mut message: String = "hello,".to_owned();
        message.append(req.name.as_str());
        HelloReply { message, name: req.name.clone() }
    }
}

/// Wraps one business invocation for instrumentation: the business result
/// is returned unchanged — the wrapper is purely observational — and
/// exactly one sample, success on `Ok` and failure on `Err`, is recorded
/// under the operation at `op_index` before the result is returned.
pub fn instrumented_call<Req, Resp, E, F: Fn(&Req) -> Result<Resp, E>>(
    registry: &mut MetricsRegistry,
    op_index: usize,
    business: F,
    req: &Req,
    elapsed_ms: u64,
) -> (res: Result<Resp, E>)
    requires
        old(registry).wf(),
        op_index < old(registry).ops@.len(),
        old(registry).ops@[op_index as int].samples@.len() < u64::MAX,
        call_requires(business, (req,)),
    ensures
        call_ensures(business, (req,), res),
        final(registry).wf(),
        final(registry).ops@.len() == old(registry).ops@.len(),
        final(registry).ops@[op_index as int].samples@ == old(
            registry,
        ).ops@[op_index as int].samples@.push(
            (MetricSample {
                outcome: if res is Ok {
                    Outcome::Success
                } else {
                    Outcome::Failure
                },
                duration_ms: elapsed_ms,
            }),
        ),
        res is Ok ==> final(registry).ops@[op_index as int].success_count
            == old(registry).ops@[op_index as int].success_count + 1
            && final(registry).ops@[op_index as int].failure_count
            == old(registry).ops@[op_index as int].failure_count,
        res is Err ==> final(registry).ops@[op_index as int].failure_count
            == old(registry).ops@[op_index as int].failure_count + 1
            && final(registry).ops@[op_index as int].success_count
            == old(registry).ops@[op_index as int].success_count,
        forall|i: int|
            0 <= i < old(registry).ops@.len() && i != op_index
                ==> final(registry).ops@[i] == old(registry).ops@[i],
{
    let result = business(req);
    let outcome = if result.is_ok() {
        Outcome::Success
    } else {
        Outcome::Failure
    };
    registry.record_completion(op_index, outcome, elapsed_ms);
    result
}

/// Serves one `greet` call through the instrumented handler: the reply
/// greets the caller by name, and exactly one success sample carrying the
/// call's elapsed time is recorded before the reply is returned.
pub fn handle_greet(
    greeter: &GreeterImpl,
    registry: &mut MetricsRegistry,
    op_index: usize,
    req: &HelloReq,
    elapsed_ms: u64,
) -> (reply: HelloReply)
    requires
        old(registry).wf(),
        op_index < old(registry).ops@.len(),
        old(registry).ops@[op_index as int].samples@.len() < u64::MAX,
    ensures
        reply.message@ == "hello,"@ + req.name@,
        reply.name@ == req.name@,
        final(registry).wf(),
        final(registry).ops@.len() == old(registry).ops@.len(),
        final(registry).ops@[op_index as int].samples@ == old(
            registry,
        ).ops@[op_index as int].samples@.push(
            (MetricSample { outcome: Outcome::Success, duration_ms: elapsed_ms }),
        ),
        final(registry).ops@[op_index as int].success_count
            == old(registry).ops@[op_index as int].success_count + 1,
        final(registry).ops@[op_index as int].failure_count
            == old(registry).ops@[op_index as int].failure_count,
        forall|i: int|
            0 <= i < old(registry).ops@.len() && i != op_index
                ==> final(registry).ops@[i] == old(registry).ops@[i],
{
    let reply = greeter.say_hello(req);
    registry.record_completion(op_index, Outcome::Success, elapsed_ms);
    reply
}

} // verus!
