use request_telemetry::digits::u64_to_dec;
use request_telemetry::exporter::{
    export_due, init_metrics, init_tracer, resolve_export, ExportOutcome, ExporterConfig,
    InitError,
};
use request_telemetry::metrics::{CounterId, MetricsState};
use request_telemetry::middleware::{on_failure, on_request, on_response, on_stream_end};
use request_telemetry::span::{EventKind, FailureClass, Phase, Span, SpanLimits};

fn default_limits() -> SpanLimits {
    SpanLimits { max_events: 64, max_attributes: 16 }
}

fn kinds_of(span: &Span) -> Vec<EventKind> {
    span.events.iter().map(|e| e.kind).collect()
}

#[test]
fn single_request_success_scenario() {
    let mut state = MetricsState::new("axum-app".to_owned());
    let mut span = on_request(&mut state, 7, 9, None, 1000, "GET".to_owned(), default_limits());
    assert_eq!(span.phase, Phase::RequestRecorded);
    assert_eq!(span.events[0].attributes[0].key, "method");
    assert_eq!(span.events[0].attributes[0].value, "GET");
    span.record_response_headers(1500, 200);
    on_stream_end(&mut state, &mut span, 2000);
    assert_eq!(
        kinds_of(&span),
        vec![
            EventKind::RequestReceived,
            EventKind::ResponseHeadersSent,
            EventKind::StreamEnded
        ]
    );
    assert_eq!(span.phase, Phase::Closed);
    assert_eq!(span.end_time, Some(2000));
    assert_eq!(state.requests.total, 1);
    assert_eq!(state.responses.total, 1);
    let sample = &state.responses.samples[0];
    assert_eq!(sample.attributes[0].key, "service-name");
    assert_eq!(sample.attributes[0].value, "axum-app");
    assert_eq!(sample.attributes[1].key, "http-status");
    assert_eq!(sample.attributes[1].value, "200");
}

#[test]
fn headers_event_carries_status_and_elapsed_time() {
    let mut state = MetricsState::new("axum-app".to_owned());
    let mut span = on_request(&mut state, 1, 2, None, 1000, "GET".to_owned(), default_limits());
    span.record_response_headers(1500, 200);
    let headers = &span.events[1];
    assert_eq!(headers.attributes[0].key, "http-status");
    assert_eq!(headers.attributes[0].value, "200");
    assert_eq!(headers.attributes[1].key, "elapsed-us");
    assert_eq!(headers.attributes[1].value, "500");
}

#[test]
fn handler_failure_scenario() {
    let mut state = MetricsState::new("axum-app".to_owned());
    let mut span = on_request(&mut state, 3, 4, None, 100, "GET".to_owned(), default_limits());
    on_failure(&mut state, &mut span, 250, FailureClass::Error("boom".to_owned()));
    assert_eq!(kinds_of(&span), vec![EventKind::RequestReceived, EventKind::Failure]);
    assert_eq!(span.phase, Phase::Closed);
    let failure = &span.events[1];
    assert_eq!(failure.attributes[0].key, "error");
    assert_eq!(failure.attributes[0].value, "boom");
    assert_eq!(failure.attributes[1].key, "elapsed-us");
    assert_eq!(failure.attributes[1].value, "150");
    assert_eq!(state.responses.total, 1);
    let sample = &state.responses.samples[0];
    assert_eq!(sample.attributes[1].key, "http-status");
    assert_eq!(sample.attributes[1].value, "500");
}

#[test]
fn failure_with_explicit_status_keeps_it() {
    let mut state = MetricsState::new("axum-app".to_owned());
    let mut span = on_request(&mut state, 3, 4, None, 100, "GET".to_owned(), default_limits());
    span.record_response_headers(150, 404);
    on_failure(&mut state, &mut span, 300, FailureClass::Status(404));
    assert_eq!(
        kinds_of(&span),
        vec![
            EventKind::RequestReceived,
            EventKind::ResponseHeadersSent,
            EventKind::Failure
        ]
    );
    let failure = &span.events[2];
    assert_eq!(failure.attributes[0].value, "status-404");
    assert_eq!(state.responses.samples[0].attributes[1].value, "404");
}

#[test]
fn on_response_records_success_as_headers_then_stream_end() {
    let mut state = MetricsState::new("axum-app".to_owned());
    let mut span = on_request(&mut state, 1, 2, None, 0, "GET".to_owned(), default_limits());
    on_response(&mut state, &mut span, 50, 200);
    assert_eq!(
        kinds_of(&span),
        vec![
            EventKind::RequestReceived,
            EventKind::ResponseHeadersSent,
            EventKind::StreamEnded
        ]
    );
    assert_eq!(state.responses.samples[0].attributes[1].value, "200");
}

#[test]
fn on_response_records_a_server_error_as_failure() {
    let mut state = MetricsState::new("axum-app".to_owned());
    let mut span = on_request(&mut state, 1, 2, None, 0, "GET".to_owned(), default_limits());
    on_response(&mut state, &mut span, 50, 500);
    assert_eq!(kinds_of(&span), vec![EventKind::RequestReceived, EventKind::Failure]);
    assert_eq!(span.events[1].attributes[0].value, "status-500");
    assert_eq!(state.responses.samples[0].attributes[1].value, "500");
}

#[test]
fn dropped_connection_mid_stream_still_closes_the_span() {
    let mut state = MetricsState::new("axum-app".to_owned());
    let mut span = on_request(&mut state, 5, 6, None, 0, "GET".to_owned(), default_limits());
    span.record_response_headers(10, 200);
    span.record_body_chunk(20, 512);
    on_failure(&mut state, &mut span, 30, FailureClass::Error("connection reset".to_owned()));
    assert_eq!(
        kinds_of(&span),
        vec![
            EventKind::RequestReceived,
            EventKind::ResponseHeadersSent,
            EventKind::BodyChunkProduced,
            EventKind::Failure
        ]
    );
    assert_eq!(span.phase, Phase::Closed);
    assert_eq!(span.end_time, Some(30));
    assert_eq!(state.responses.total, 1);
}

#[test]
fn response_status_attribute_matches_for_sampled_statuses() {
    for status in [200u16, 404, 500] {
        let mut state = MetricsState::new("axum-app".to_owned());
        let mut span =
            on_request(&mut state, 1, 1, None, 0, "GET".to_owned(), default_limits());
        span.record_response_headers(10, status);
        on_stream_end(&mut state, &mut span, 20);
        let sample = &state.responses.samples[0];
        assert_eq!(sample.attributes[1].key, "http-status");
        assert_eq!(sample.attributes[1].value, format!("{}", status));
    }
}

#[test]
fn counters_rise_by_exactly_one_per_request() {
    let mut state = MetricsState::new("axum-app".to_owned());
    for i in 0..5u64 {
        let mut span =
            on_request(&mut state, i, i, None, i * 10, "GET".to_owned(), default_limits());
        span.record_response_headers(i * 10 + 1, 200);
        on_stream_end(&mut state, &mut span, i * 10 + 2);
    }
    assert_eq!(state.requests.total, 5);
    assert_eq!(state.responses.total, 5);
    assert_eq!(state.requests.samples.len(), 5);
    assert_eq!(state.responses.samples.len(), 5);
    assert_eq!(state.snapshot(), (5, 5));
}

#[test]
fn increment_order_is_irrelevant_to_totals() {
    let mut a = MetricsState::new("svc".to_owned());
    a.increment(CounterId::Requests, Vec::new());
    a.increment(CounterId::Responses, Vec::new());
    a.increment(CounterId::Requests, Vec::new());
    let mut b = MetricsState::new("svc".to_owned());
    b.increment(CounterId::Responses, Vec::new());
    b.increment(CounterId::Requests, Vec::new());
    b.increment(CounterId::Requests, Vec::new());
    assert_eq!(a.snapshot(), (2, 1));
    assert_eq!(b.snapshot(), (2, 1));
}

#[test]
fn chunk_events_truncate_at_the_cap() {
    let mut state = MetricsState::new("axum-app".to_owned());
    let limits = SpanLimits { max_events: 5, max_attributes: 16 };
    let mut span = on_request(&mut state, 1, 1, None, 0, "GET".to_owned(), limits);
    span.record_response_headers(1, 200);
    for i in 0..10u64 {
        span.record_body_chunk(2 + i, 1024);
    }
    on_stream_end(&mut state, &mut span, 100);
    assert_eq!(span.events.len(), 5);
    assert_eq!(span.dropped_events, 8);
    assert_eq!(
        kinds_of(&span),
        vec![
            EventKind::RequestReceived,
            EventKind::ResponseHeadersSent,
            EventKind::BodyChunkProduced,
            EventKind::BodyChunkProduced,
            EventKind::StreamEnded
        ]
    );
    let chunk = &span.events[2];
    assert_eq!(chunk.attributes[0].key, "chunk-bytes");
    assert_eq!(chunk.attributes[0].value, "1024");
    assert_eq!(chunk.attributes[1].key, "elapsed-us");
    assert_eq!(chunk.attributes[1].value, "1");
}

#[test]
fn span_attributes_truncate_at_the_cap() {
    let limits = SpanLimits { max_events: 64, max_attributes: 2 };
    let mut span = Span::open(1, 2, None, 0, limits);
    span.set_attribute("a".to_owned(), "1".to_owned());
    span.set_attribute("b".to_owned(), "2".to_owned());
    span.set_attribute("c".to_owned(), "3".to_owned());
    assert_eq!(span.attributes.len(), 2);
    assert_eq!(span.attributes[0].key, "a");
    assert_eq!(span.attributes[1].key, "b");
}

#[test]
fn event_times_never_run_backwards() {
    let mut state = MetricsState::new("axum-app".to_owned());
    let mut span = on_request(&mut state, 1, 1, None, 1000, "GET".to_owned(), default_limits());
    span.record_response_headers(500, 200);
    on_stream_end(&mut state, &mut span, 40);
    assert_eq!(span.events[1].timestamp, 1000);
    assert_eq!(span.events[2].timestamp, 1000);
    assert_eq!(span.end_time, Some(1000));
    let headers = &span.events[1];
    assert_eq!(headers.attributes[1].value, "0");
}

#[test]
fn unreachable_collector_fails_init_and_the_caller_degrades() {
    let config = ExporterConfig::default_for("axum-app".to_owned());
    assert!(matches!(init_tracer(&config, false), Err(InitError::CollectorUnreachable)));
    assert!(matches!(init_metrics(&config, false), Err(InitError::CollectorUnreachable)));
    let mut state = MetricsState::new("axum-app".to_owned());
    let mut span =
        on_request(&mut state, 1, 1, None, 0, "GET".to_owned(), config.limits);
    span.record_response_headers(1, 200);
    on_stream_end(&mut state, &mut span, 2);
    assert_eq!(state.snapshot(), (1, 1));
}

#[test]
fn misconfigured_endpoint_fails_init() {
    let mut config = ExporterConfig::default_for("axum-app".to_owned());
    config.endpoint = String::new();
    assert!(matches!(init_tracer(&config, true), Err(InitError::Misconfigured)));
    assert!(matches!(init_metrics(&config, true), Err(InitError::Misconfigured)));
}

#[test]
fn init_builds_handles_from_the_configured_defaults() {
    let config = ExporterConfig::default_for("axum-app".to_owned());
    let tracer = match init_tracer(&config, true) {
        Ok(handle) => handle,
        Err(_) => panic!("init_tracer failed on a reachable collector"),
    };
    assert_eq!(tracer.traces_endpoint, "127.0.0.1:4317/v1/traces");
    assert_eq!(tracer.export_timeout_secs, 3);
    assert_eq!(tracer.limits.max_events, 64);
    assert_eq!(tracer.limits.max_attributes, 16);
    assert!(tracer.should_sample());
    let controller = match init_metrics(&config, true) {
        Ok(handle) => handle,
        Err(_) => panic!("init_metrics failed on a reachable collector"),
    };
    assert_eq!(controller.metrics_endpoint, "127.0.0.1:4317/v1/metrics");
    assert_eq!(controller.period_secs, 60);
    assert_eq!(controller.timeout_secs, 10);
}

#[test]
fn batches_drain_and_a_timed_out_export_is_dropped_not_fatal() {
    let config = ExporterConfig::default_for("axum-app".to_owned());
    let mut tracer = match init_tracer(&config, true) {
        Ok(handle) => handle,
        Err(_) => panic!("init_tracer failed on a reachable collector"),
    };
    let mut state = MetricsState::new("axum-app".to_owned());
    let mut span =
        on_request(&mut state, 1, 1, None, 0, "GET".to_owned(), config.limits);
    span.record_response_headers(1, 200);
    on_stream_end(&mut state, &mut span, 2);
    tracer.enqueue(span);
    assert_eq!(tracer.pending.len(), 1);
    let batch = tracer.take_batch();
    assert_eq!(batch.len(), 1);
    assert_eq!(tracer.pending.len(), 0);
    let report = resolve_export(ExportOutcome::TimedOut, batch.len());
    assert!(report.warn);
    assert!(!report.fatal);
    assert!(!report.delivered);
    assert_eq!(report.dropped_spans, 1);
    let report = resolve_export(ExportOutcome::Delivered, 3);
    assert!(report.delivered);
    assert!(!report.warn);
    assert_eq!(report.dropped_spans, 0);
}

#[test]
fn export_due_honours_the_flush_period() {
    assert!(export_due(100, 40, 60));
    assert!(!export_due(99, 40, 60));
    assert!(!export_due(30, 40, 60));
}

#[test]
fn decimal_rendering_is_exact() {
    assert_eq!(u64_to_dec(0), "0");
    assert_eq!(u64_to_dec(7), "7");
    assert_eq!(u64_to_dec(42), "42");
    assert_eq!(u64_to_dec(65535), "65535");
    assert_eq!(u64_to_dec(u64::MAX), "18446744073709551615");
}
