use excelsior::backend::{ApplicationState, BackendHandle, BackendKind};
use excelsior::handlers::get_pong;
use excelsior::pipeline::{build_pipeline, Limits, RequestFacts, Stage};
use excelsior::runner::{Action, Event, Phase, Runner, DRAIN_GRACE_MILLIS};
use excelsior::telemetry::{TelemetryConfig, TelemetryError, TelemetryManager, TelemetryPhase};

fn listening_runner() -> Runner {
    let mut runner = Runner::new();
    assert!(runner.step(Event::BackendProbed(true)).is_empty());
    assert_eq!(runner.step(Event::Bound), vec![Action::StartServing]);
    runner
}

#[test]
fn unreachable_backend_still_answers_liveness() {
    let handle: BackendHandle<String> = BackendHandle::acquire_backend(None);
    assert_eq!(handle.backend_kind(), BackendKind::StandIn);
    assert!(!handle.is_live());
    assert!(handle.pool().is_none());
    let state = ApplicationState::new(handle);
    assert_eq!(state.backend().backend_kind(), BackendKind::StandIn);

    let mut runner = Runner::new();
    runner.step(Event::BackendProbed(false));
    assert_eq!(runner.step(Event::Bound), vec![Action::StartServing]);
    assert_eq!(runner.phase(), Phase::Listening);

    let reply = get_pong();
    assert_eq!(reply.status, 200);
    assert_eq!(reply.body, "PONG!");
}

#[test]
fn live_probe_gives_live_handle() {
    let handle = BackendHandle::acquire_backend(Some(7u32));
    assert_eq!(handle.backend_kind(), BackendKind::Live);
    assert_eq!(handle.pool(), Some(&7u32));
}

#[test]
fn stand_in_answers_empty_and_succeeds() {
    let handle: BackendHandle<u8> = BackendHandle::acquire_backend(None);
    match handle {
        BackendHandle::StandIn(store) => {
            let rows: Vec<String> = store.select();
            assert!(rows.is_empty());
            assert_eq!(store.execute(), 0);
        }
        BackendHandle::Live(_) => panic!("expected the stand-in"),
    }
}

#[test]
fn backend_shape_is_not_promoted_by_a_later_probe() {
    let mut runner = Runner::new();
    runner.step(Event::BackendProbed(false));
    runner.step(Event::BackendProbed(true));
    assert_eq!(runner.state().backend, Some(BackendKind::StandIn));
    runner.step(Event::Bound);
    runner.step(Event::BackendProbed(true));
    assert_eq!(runner.state().backend, Some(BackendKind::StandIn));
}

#[test]
fn shutdown_during_slow_request_drains_then_refuses() {
    let mut runner = listening_runner();
    assert_eq!(runner.step(Event::Arrived), vec![Action::Accept]);
    assert_eq!(runner.step(Event::Signal), vec![Action::StopAccepting]);
    assert_eq!(runner.phase(), Phase::Draining);
    assert_eq!(runner.step(Event::Arrived), vec![Action::Refuse]);
    assert_eq!(
        runner.step(Event::Finished),
        vec![Action::Respond, Action::ShutdownTelemetry]
    );
    assert_eq!(runner.phase(), Phase::Stopped);
    assert_eq!(runner.step(Event::Arrived), vec![Action::Refuse]);
    assert_eq!(runner.exit_code(), 0);
}

#[test]
fn grace_deadline_cancels_what_is_left() {
    let mut runner = listening_runner();
    runner.step(Event::Arrived);
    runner.step(Event::Arrived);
    assert_eq!(runner.step(Event::Signal), vec![Action::StopAccepting]);
    assert_eq!(runner.step(Event::Finished), vec![Action::Respond]);
    assert_eq!(
        runner.step(Event::GraceExpired),
        vec![Action::CancelAll, Action::ShutdownTelemetry]
    );
    assert_eq!(runner.phase(), Phase::Stopped);
    assert_eq!(runner.state().in_flight, 0);
    assert_eq!(runner.step(Event::Arrived), vec![Action::Refuse]);
    assert!(runner.step(Event::Signal).is_empty());
}

#[test]
fn idle_shutdown_stops_at_once() {
    let mut runner = listening_runner();
    assert_eq!(
        runner.step(Event::Signal),
        vec![Action::StopAccepting, Action::ShutdownTelemetry]
    );
    assert_eq!(runner.phase(), Phase::Stopped);
}

#[test]
fn timed_out_request_is_answered_with_timeout() {
    let mut runner = listening_runner();
    runner.step(Event::Arrived);
    assert_eq!(runner.step(Event::TimedOut), vec![Action::RespondTimeout]);
    assert_eq!(runner.state().in_flight, 0);
    assert!(runner.step(Event::Finished).is_empty());
}

#[test]
fn bind_failure_exits_non_zero() {
    let mut runner = Runner::new();
    assert_eq!(runner.step(Event::Arrived), vec![Action::Refuse]);
    assert_eq!(runner.step(Event::StartFailed), vec![Action::ShutdownTelemetry]);
    assert_eq!(runner.phase(), Phase::Stopped);
    assert_eq!(runner.exit_code(), 1);
    assert!(runner.step(Event::Bound).is_empty());
    assert_eq!(runner.phase(), Phase::Stopped);
}

#[test]
fn oversized_body_is_rejected_before_the_handler() {
    let pipeline = build_pipeline(Limits::default());
    let outcome = pipeline.outcome(RequestFacts {
        body_len: 10 * 1024 * 1024 + 1,
        handler_millis: 5,
        handler_status: 200,
    });
    assert_eq!(outcome.status, 413);
    assert_ne!(outcome.status, 400);
    assert!(!outcome.handler_ran);
    assert!(!outcome.failure_logged);

    let at_limit = pipeline.outcome(RequestFacts {
        body_len: 10 * 1024 * 1024,
        handler_millis: 5,
        handler_status: 200,
    });
    assert_eq!(at_limit.status, 200);
    assert!(at_limit.handler_answered);
}

#[test]
fn pipeline_order_and_defaults() {
    let limits = Limits::default();
    assert_eq!(limits.body_limit_bytes, 10485760);
    assert_eq!(limits.timeout_millis, 60000);
    let pipeline = build_pipeline(limits);
    assert_eq!(
        pipeline.stages(),
        &vec![
            Stage::Trace,
            Stage::Compression,
            Stage::BodyLimit(10485760),
            Stage::Timeout(60000)
        ]
    );
}

#[test]
fn slow_handler_times_out_and_server_errors_are_logged() {
    let pipeline = build_pipeline(Limits::default());
    let slow = pipeline.outcome(RequestFacts {
        body_len: 0,
        handler_millis: 60000,
        handler_status: 200,
    });
    assert_eq!(slow.status, 408);
    assert!(slow.handler_ran);
    assert!(!slow.handler_answered);
    assert!(!slow.failure_logged);

    let broken = pipeline.outcome(RequestFacts {
        body_len: 0,
        handler_millis: 59999,
        handler_status: 503,
    });
    assert_eq!(broken.status, 503);
    assert!(broken.failure_logged);
}

#[test]
fn telemetry_keeps_every_span_until_shutdown() {
    let mut telemetry = TelemetryManager::new();
    assert!(!telemetry.record_span(true));
    assert_eq!(telemetry.init_telemetry(TelemetryConfig::from_settings(None, None, None)), Ok(()));
    assert_eq!(telemetry.phase(), TelemetryPhase::Active);
    assert_eq!(telemetry.config().unwrap().service_name, "excelsior");
    for _ in 0..5 {
        assert!(telemetry.record_span(true));
    }
    telemetry.export_batch(true);
    assert_eq!(telemetry.exported(), 5);
    assert!(telemetry.record_span(true));
    assert!(telemetry.record_span(true));
    assert_eq!(telemetry.shutdown_telemetry(true), 2);
    assert_eq!(telemetry.exported(), 7);
    assert_eq!(telemetry.dropped(), 0);
    assert_eq!(telemetry.pending(), 0);
    assert_eq!(telemetry.phase(), TelemetryPhase::ShutDown);
    assert!(!telemetry.record_span(true));
    assert_eq!(telemetry.shutdown_telemetry(true), 0);
    assert_eq!(telemetry.exported(), 7);
}

#[test]
fn telemetry_full_buffer_is_shipped_or_dropped() {
    let mut shipped = TelemetryManager::new();
    shipped.init_telemetry(TelemetryConfig::from_settings(None, None, None)).unwrap();
    let mut lost = TelemetryManager::new();
    lost.init_telemetry(TelemetryConfig::from_settings(None, None, None)).unwrap();
    for _ in 0..2049 {
        assert!(shipped.record_span(true));
        assert!(lost.record_span(false));
    }
    assert_eq!(shipped.exported(), 2048);
    assert_eq!(shipped.pending(), 1);
    assert_eq!(lost.dropped(), 2048);
    assert_eq!(lost.pending(), 1);
    assert_eq!(shipped.shutdown_telemetry(true), 1);
    assert_eq!(shipped.exported(), 2049);
    assert_eq!(shipped.dropped(), 0);
}

#[test]
fn telemetry_second_init_is_refused() {
    let mut telemetry = TelemetryManager::new();
    assert_eq!(telemetry.init_telemetry(TelemetryConfig::from_settings(None, None, None)), Ok(()));
    assert_eq!(telemetry.init_telemetry(TelemetryConfig::from_settings(None, None, None)), Err(TelemetryError::AlreadyInitialized));
    telemetry.shutdown_telemetry(true);
    assert_eq!(telemetry.init_telemetry(TelemetryConfig::from_settings(None, None, None)), Err(TelemetryError::AlreadyInitialized));
}

#[test]
fn telemetry_unreachable_exporter_drops_without_failing() {
    let mut telemetry = TelemetryManager::new();
    telemetry.init_telemetry(TelemetryConfig::from_settings(None, None, None)).unwrap();
    telemetry.record_span(false);
    telemetry.record_span(false);
    assert_eq!(telemetry.shutdown_telemetry(false), 0);
    assert_eq!(telemetry.dropped(), 2);
    assert_eq!(telemetry.exported(), 0);
}

#[test]
fn telemetry_config_defaults_and_overrides() {
    let defaults = TelemetryConfig::from_settings(None, None, None);
    assert_eq!(defaults.service_name, "excelsior");
    assert_eq!(defaults.exporter_endpoint, "http://localhost:4317");
    assert_eq!(defaults.environment, "development");
    let set = TelemetryConfig::from_settings(
        Some("excelsior-tracing-test".to_string()),
        Some("http://collector:4317".to_string()),
        Some("testing".to_string()),
    );
    assert_eq!(set.service_name, "excelsior-tracing-test");
    assert_eq!(set.exporter_endpoint, "http://collector:4317");
    assert_eq!(set.environment, "testing");
}

#[test]
fn drain_grace_period_is_ten_seconds() {
    assert_eq!(DRAIN_GRACE_MILLIS, 10000);
}
