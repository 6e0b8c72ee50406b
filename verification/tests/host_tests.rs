use grpc_host::config::AppConfig;
use grpc_host::exporter::{render, u64_to_string};
use grpc_host::greet::{handle_greet, instrumented_call, GreeterImpl, HelloReply, HelloReq};
use grpc_host::metrics::{MetricsRegistry, Outcome};
use grpc_host::objective::{api_slo, Objective, TARGET_SCALE};
use grpc_host::orchestrator::{exit_code, outcome_of, propagate_first_stop, ServiceOutcome};
use grpc_host::shutdown::{ServiceHandle, ServiceState, ShutdownSignal};

fn registry_with_grpc_op() -> (MetricsRegistry, usize) {
    let mut reg = MetricsRegistry::new();
    let idx = reg.register("grpc".to_string(), api_slo()).unwrap();
    (reg, idx)
}

#[test]
fn greet_echoes_name_in_message() {
    let greeter = GreeterImpl::default();
    let req = HelloReq { id: 7, name: "world".to_string() };
    let reply = greeter.say_hello(&req);
    assert_eq!(reply.message, "hello,world");
    assert_eq!(reply.name, "world");
}

#[test]
fn greet_with_empty_name() {
    let greeter = GreeterImpl::default();
    let req = HelloReq { id: 0, name: String::new() };
    let reply = greeter.say_hello(&req);
    assert_eq!(reply.message, "hello,");
    assert_eq!(reply.name, "");
}

#[test]
fn api_slo_targets() {
    let o = api_slo();
    assert_eq!(o.name, "grpc");
    assert_eq!(o.success_rate_target, 9990);
    assert_eq!(o.latency_target_ms, 750);
    assert_eq!(o.latency_percentile, 9900);
}

#[test]
fn declare_objective_keeps_targets() {
    let o = Objective::declare("http".to_string(), TARGET_SCALE, 1000, 5000);
    assert_eq!(o.name, "http");
    assert_eq!(o.success_rate_target, TARGET_SCALE);
    assert_eq!(o.latency_target_ms, 1000);
    assert_eq!(o.latency_percentile, 5000);
}

#[test]
fn register_rejects_duplicate_name() {
    let (mut reg, idx) = registry_with_grpc_op();
    assert_eq!(idx, 0);
    assert!(reg.register("grpc".to_string(), api_slo()).is_none());
    assert_eq!(reg.register("http".to_string(), api_slo()), Some(1));
}

#[test]
fn find_locates_registered_operation() {
    let (reg, idx) = registry_with_grpc_op();
    assert_eq!(reg.find(&"grpc".to_string()), Some(idx));
    assert_eq!(reg.find(&"absent".to_string()), None);
}

#[test]
fn scrape_sum_equals_completed_calls() {
    let (mut reg, idx) = registry_with_grpc_op();
    reg.record_completion(idx, Outcome::Success, 10);
    reg.record_completion(idx, Outcome::Failure, 900);
    reg.record_completion(idx, Outcome::Success, 200);
    reg.record_completion(idx, Outcome::Failure, 40);
    reg.record_completion(idx, Outcome::Success, 760);
    assert_eq!(reg.completed_total(idx), 5);
    assert_eq!(reg.ops[idx].success_count, 3);
    assert_eq!(reg.ops[idx].failure_count, 2);
}

#[test]
fn hundred_calls_never_lose_or_double_count() {
    let greeter = GreeterImpl::default();
    let (mut reg, idx) = registry_with_grpc_op();
    for i in 0..100u64 {
        let req = HelloReq { id: i as i64, name: format!("caller{}", i) };
        let reply = handle_greet(&greeter, &mut reg, idx, &req, i % 50);
        assert_eq!(reply.message, format!("hello,caller{}", i));
    }
    assert_eq!(reg.completed_total(idx), 100);
    assert_eq!(reg.ops[idx].success_count, 100);
    assert_eq!(reg.ops[idx].failure_count, 0);
}

#[test]
fn instrumented_call_is_transparent_and_records_success() {
    let greeter = GreeterImpl::default();
    let (mut reg, idx) = registry_with_grpc_op();
    let req = HelloReq { id: 1, name: "ada".to_string() };
    let res: Result<HelloReply, u32> =
        instrumented_call(&mut reg, idx, |r: &HelloReq| Ok(greeter.say_hello(r)), &req, 12);
    let reply = res.unwrap();
    assert_eq!(reply.message, "hello,ada");
    assert_eq!(reg.ops[idx].success_count, 1);
    assert_eq!(reg.ops[idx].failure_count, 0);
}

#[test]
fn instrumented_call_records_failure_and_keeps_error() {
    let (mut reg, idx) = registry_with_grpc_op();
    let req = HelloReq { id: 1, name: "ada".to_string() };
    let res: Result<HelloReply, u32> =
        instrumented_call(&mut reg, idx, |_r: &HelloReq| Err(13), &req, 12);
    assert_eq!(res.unwrap_err(), 13);
    assert_eq!(reg.ops[idx].success_count, 0);
    assert_eq!(reg.ops[idx].failure_count, 1);
    assert_eq!(reg.completed_total(idx), 1);
}

#[test]
fn u64_rendering_is_exact_decimal() {
    assert_eq!(u64_to_string(0), "0");
    assert_eq!(u64_to_string(9), "9");
    assert_eq!(u64_to_string(10), "10");
    assert_eq!(u64_to_string(42), "42");
    assert_eq!(u64_to_string(750), "750");
    assert_eq!(u64_to_string(u64::MAX), "18446744073709551615");
}

#[test]
fn scrape_payload_is_exact() {
    let (mut reg, idx) = registry_with_grpc_op();
    reg.record_completion(idx, Outcome::Success, 10);
    reg.record_completion(idx, Outcome::Success, 900);
    reg.record_completion(idx, Outcome::Failure, 100);
    let body = render(&reg);
    let expected = "calls_total{operation=\"grpc\",result=\"ok\"} 2\n\
        calls_total{operation=\"grpc\",result=\"error\"} 1\n\
        duration_ms_bucket{operation=\"grpc\",le=\"100\"} 2\n\
        duration_ms_bucket{operation=\"grpc\",le=\"250\"} 2\n\
        duration_ms_bucket{operation=\"grpc\",le=\"500\"} 2\n\
        duration_ms_bucket{operation=\"grpc\",le=\"750\"} 2\n\
        duration_ms_bucket{operation=\"grpc\",le=\"1000\"} 3\n\
        duration_ms_bucket{operation=\"grpc\",le=\"+Inf\"} 3\n";
    assert_eq!(body, expected);
}

#[test]
fn empty_registry_renders_empty_payload() {
    let reg = MetricsRegistry::new();
    assert_eq!(render(&reg), "");
}

#[test]
fn idle_shutdown_stops_both_services_cleanly() {
    let mut rpc = ServiceHandle::new(3000);
    let mut metrics = ServiceHandle::new(5000);
    let mut signal = ShutdownSignal::new();
    signal.trigger();
    assert!(signal.is_triggered());
    rpc.begin_drain(1000);
    metrics.begin_drain(1000);
    rpc.poll_drain(1000);
    metrics.poll_drain(1001);
    assert_eq!(rpc.state, ServiceState::StoppedClean);
    assert_eq!(metrics.state, ServiceState::StoppedClean);
    assert!(1000 <= rpc.deadline_ms && 1001 <= metrics.deadline_ms);
}

#[test]
fn delayed_call_forces_stop_and_prompt_call_stops_clean() {
    let mut delayed = ServiceHandle::new(3000);
    delayed.accept();
    delayed.begin_drain(0);
    assert_eq!(delayed.deadline_ms, 3000);
    delayed.poll_drain(3000);
    assert_eq!(delayed.state, ServiceState::StoppedForced);
    assert_eq!(delayed.in_flight, 0);

    let mut prompt = ServiceHandle::new(5000);
    prompt.accept();
    prompt.begin_drain(0);
    prompt.complete_one();
    prompt.poll_drain(100);
    assert_eq!(prompt.state, ServiceState::StoppedClean);
}

#[test]
fn draining_continues_before_deadline_with_work_in_flight() {
    let mut h = ServiceHandle::new(3000);
    h.accept();
    h.accept();
    h.begin_drain(100);
    h.poll_drain(200);
    assert_eq!(h.state, ServiceState::Draining);
    assert_eq!(h.in_flight, 2);
    h.complete_one();
    h.complete_one();
    h.poll_drain(200);
    assert_eq!(h.state, ServiceState::StoppedClean);
}

#[test]
fn bind_failure_signals_other_service_and_exits_nonzero() {
    let mut rpc = ServiceHandle::new(3000);
    rpc.fail();
    let rpc_outcome = outcome_of(&rpc).unwrap();
    assert_eq!(rpc_outcome, ServiceOutcome::Failed);

    let mut signal = ShutdownSignal::new();
    propagate_first_stop(&mut signal, &rpc_outcome);
    assert!(signal.is_triggered());

    let mut metrics = ServiceHandle::new(5000);
    metrics.begin_drain(0);
    metrics.poll_drain(0);
    let metrics_outcome = outcome_of(&metrics).unwrap();
    assert_eq!(metrics_outcome, ServiceOutcome::Clean);

    assert_ne!(exit_code(&rpc_outcome, &metrics_outcome), 0);
    assert_eq!(exit_code(&rpc_outcome, &metrics_outcome), 1);
}

#[test]
fn exit_codes_distinguish_failure_causes() {
    assert_eq!(exit_code(&ServiceOutcome::Clean, &ServiceOutcome::Clean), 0);
    assert_eq!(exit_code(&ServiceOutcome::Forced, &ServiceOutcome::Clean), 2);
    assert_eq!(exit_code(&ServiceOutcome::Clean, &ServiceOutcome::Forced), 2);
    assert_eq!(exit_code(&ServiceOutcome::Failed, &ServiceOutcome::Forced), 1);
    assert_eq!(exit_code(&ServiceOutcome::Forced, &ServiceOutcome::Failed), 1);
}

#[test]
fn shutdown_trigger_is_idempotent() {
    let mut signal = ShutdownSignal::new();
    assert!(!signal.is_triggered());
    signal.trigger();
    let once = signal;
    signal.trigger();
    assert_eq!(signal, once);
    assert!(signal.is_triggered());
}

#[test]
fn running_services_have_no_outcome_yet() {
    let mut h = ServiceHandle::new(3000);
    assert_eq!(outcome_of(&h), None);
    h.accept();
    h.begin_drain(0);
    assert_eq!(outcome_of(&h), None);
}

#[test]
fn config_holds_loaded_values() {
    let c = AppConfig::new("hello-app".to_string(), true, 50051, 2338);
    assert_eq!(c.app_name, "hello-app");
    assert!(c.app_debug);
    assert_eq!(c.grpc_port, 50051);
    assert_eq!(c.monitor_port, 2338);
}
