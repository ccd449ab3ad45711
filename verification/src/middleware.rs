use vstd::prelude::*;

use crate::digits::dec_seq;
use crate::metrics::{Attribute, CounterId, MetricsState};
use crate::span::{same_identity, EventKind, FailureClass, Phase, Span, SpanLimits};

verus! {

/// Request entry: open a span for this request's trace context, record the
/// request-received event, and increment the "requests" counter tagged with
/// the service name. The embedding then runs the wrapped handler and reports
/// what it observed through `Span::record_response_headers`,
/// `Span::record_body_chunk` and one of the completion functions below; the
/// response itself passes through untouched.
pub fn on_request(
    state: &mut MetricsState,
    trace_id: u64,
    span_id: u64,
    parent_span_id: Option<u64>,
    now: u64,
    method: String,
    limits: SpanLimits,
) -> (span: Span)
    requires
        old(state).wf(),
        old(state).requests.total < u64::MAX,
        limits.wf(),
    ensures
        span.wf(),
        span.phase == Phase::RequestRecorded,
        span.trace_id == trace_id,
        span.span_id == span_id,
        span.parent_span_id == parent_span_id,
        span.start_time == now,
        span.limits == limits,
        span.events@.len() == 1,
        span.events@[0].kind == EventKind::RequestReceived,
        span.events@[0].timestamp == now,
        span.events@[0].attributes@.len() == 1,
        span.events@[0].attributes@[0].key@ == "method"@,
        span.events@[0].attributes@[0].value == method,
        span.dropped_events == 0,
        final(state).wf(),
        final(state).service_name == old(state).service_name,
        final(state).requests.total == old(state).requests.total + 1,
        final(state).responses == old(state).responses,
        final(state).requests.samples@.len() == old(state).requests.samples@.len() + 1,
        final(state).requests.samples@.last().attributes@.len() == 1,
        final(state).requests.samples@.last().attributes@[0].key@ == "service-name"@,
        final(state).requests.samples@.last().attributes@[0].value@ == old(state).service_name@,
    {
    let mut span = Span::open(trace_id, span_id, parent_span_id, now, limits);
    span.record_request(now, method);
    let mut attrs: Vec<Attribute> = Vec::new();
    attrs.push(Attribute { key: "service-name".to_owned(), value: state.service_name.clone() });
    state.increment(CounterId::Requests, attrs);
    span
}

/// Normal completion: record the stream-ended terminal event, close the
/// span, and increment the "responses" counter tagged with the service name
/// and the status code that was actually sent to the client — the same one
/// the headers event recorded.
pub fn on_stream_end(state: &mut MetricsState, span: &mut Span, now: u64)
    requires
        old(span).wf(),
        old(span).phase == Phase::HeadersRecorded,
        old(state).wf(),
        old(state).responses.total < u64::MAX,
    ensures
        final(span).wf(),
        final(span).phase == Phase::Closed,
        same_identity(*old(span), *final(span)),
        final(span).events@.drop_last() == old(span).events@,
        final(span).events@.last().kind == EventKind::StreamEnded,
        final(span).end_time == Some(old(span).next_time(now)),
        final(span).response_status == old(span).response_status,
        final(state).wf(),
        final(state).service_name == old(state).service_name,
        final(state).responses.total == old(state).responses.total + 1,
        final(state).requests == old(state).requests,
        final(state).responses.samples@.len() == old(state).responses.samples@.len() + 1,
        final(state).responses.samples@.last().attributes@.len() == 2,
        final(state).responses.samples@.last().attributes@[0].key@ == "service-name"@,
        final(state).responses.samples@.last().attributes@[0].value@ == old(state).service_name@,
        final(state).responses.samples@.last().attributes@[1].key@ == "http-status"@,
        final(state).responses.samples@.last().attributes@[1].value@ == dec_seq(
            old(span).response_status->0 as int,
        ),
    {
    let status = span.response_status.unwrap();
    span.record_stream_end(now);
    let mut attrs: Vec<Attribute> = Vec::new();
    attrs.push(Attribute { key: "service-name".to_owned(), value: state.service_name.clone() });
    attrs.push(
        Attribute { key: "http-status".to_owned(), value: crate::digits::u64_to_dec(status as u64) },
    );
    state.increment(CounterId::Responses, attrs);
}

/// The whole response side of the middleware for a handler whose body was
/// not streamed: a server-error status (500 and above) is recorded as the
/// failure terminal event, anything else as response-headers-sent followed
/// at once by stream-ended. Either way the span closes and the "responses"
/// counter rises, tagged with the service name and with exactly the status
/// code the client sees.
pub fn on_response(state: &mut MetricsState, span: &mut Span, now: u64, status: u16)
    requires
        old(span).wf(),
        old(span).phase == Phase::RequestRecorded,
        old(state).wf(),
        old(state).responses.total < u64::MAX,
    ensures
        final(span).wf(),
        final(span).phase == Phase::Closed,
        same_identity(*old(span), *final(span)),
        status >= 500 ==> {
            &&& final(span).events@.drop_last() == old(span).events@
            &&& final(span).events@.last().kind == EventKind::Failure
        },
        status < 500 ==> {
            &&& final(span).events@.len() == old(span).events@.len() + 2
            &&& final(span).events@[final(span).events@.len() - 2].kind
                == EventKind::ResponseHeadersSent
            &&& final(span).events@.last().kind == EventKind::StreamEnded
            &&& final(span).events@.drop_last().drop_last() == old(span).events@
        },
        final(state).wf(),
        final(state).service_name == old(state).service_name,
        final(state).responses.total == old(state).responses.total + 1,
        final(state).requests == old(state).requests,
        final(state).responses.samples@.len() == old(state).responses.samples@.len() + 1,
        final(state).responses.samples@.last().attributes@.len() == 2,
        final(state).responses.samples@.last().attributes@[0].key@ == "service-name"@,
        final(state).responses.samples@.last().attributes@[0].value@ == old(state).service_name@,
        final(state).responses.samples@.last().attributes@[1].key@ == "http-status"@,
        final(state).responses.samples@.last().attributes@[1].value@ == dec_seq(status as int),
    {
    if status >= 500 {
        on_failure(state, span, now, FailureClass::Status(status));
    } else {
        span.record_response_headers(now, status);
        on_stream_end(state, span, now);
        proof {
            assert(span.events@.drop_last().drop_last() =~= old(span).events@);
        }
    }
}

/// Handler failure or dropped connection: record the failure terminal event
/// with its error classification, close the span rather than leak it, and
/// increment the "responses" counter with the status the client ends up
/// seeing — the failure's own status, or 500 for an internal error.
pub fn on_failure(state: &mut MetricsState, span: &mut Span, now: u64, class: FailureClass)
    requires
        old(span).wf(),
        old(span).phase == Phase::RequestRecorded || old(span).phase == Phase::HeadersRecorded,
        old(state).wf(),
        old(state).responses.total < u64::MAX,
    ensures
        final(span).wf(),
        final(span).phase == Phase::Closed,
        same_identity(*old(span), *final(span)),
        final(span).events@.drop_last() == old(span).events@,
        final(span).events@.last().kind == EventKind::Failure,
        final(span).events@.last().attributes@.len() == 2,
        final(span).events@.last().attributes@[0].key@ == "error"@,
        final(span).events@.last().attributes@[0].value@ == class.label_view(),
        final(span).end_time == Some(old(span).next_time(now)),
        final(state).wf(),
        final(state).service_name == old(state).service_name,
        final(state).responses.total == old(state).responses.total + 1,
        final(state).requests == old(state).requests,
        final(state).responses.samples@.len() == old(state).responses.samples@.len() + 1,
        final(state).responses.samples@.last().attributes@.len() == 2,
        final(state).responses.samples@.last().attributes@[0].key@ == "service-name"@,
        final(state).responses.samples@.last().attributes@[0].value@ == old(state).service_name@,
        final(state).responses.samples@.last().attributes@[1].key@ == "http-status"@,
        final(state).responses.samples@.last().attributes@[1].value@ == dec_seq(
            class.status_code() as int,
        ),
    {
    let status = class.status();
    span.record_failure(now, class);
    let mut attrs: Vec<Attribute> = Vec::new();
    attrs.push(Attribute { key: "service-name".to_owned(), value: state.service_name.clone() });
    attrs.push(
        Attribute { key: "http-status".to_owned(), value: crate::digits::u64_to_dec(status as u64) },
    );
    state.increment(CounterId::Responses, attrs);
}

} // verus!
