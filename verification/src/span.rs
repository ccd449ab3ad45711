use vstd::prelude::*;

use crate::digits::{dec_seq, u64_to_dec};
use crate::metrics::Attribute;

verus! {

/// The lifecycle events a request span can carry.
#[derive(Clone, Copy, PartialEq, Eq, Structural, Debug)]
pub enum EventKind {
    RequestReceived,
    ResponseHeadersSent,
    BodyChunkProduced,
    StreamEnded,
    Failure,
}

/// The two terminal events are mutually exclusive: a span ends in exactly
/// one of them.
pub open spec fn is_terminal(kind: EventKind) -> bool {
    kind == EventKind::StreamEnded || kind == EventKind::Failure
}

/// Where a span stands in its per-request lifecycle. `Closed` is terminal:
/// no further events are accepted.
#[derive(Clone, Copy, PartialEq, Eq, Structural, Debug)]
pub enum Phase {
    Opened,
    RequestRecorded,
    HeadersRecorded,
    Closed,
}

/// How the wrapped handler failed: either it produced an error status, or it
/// broke off with an internal error described by a message.
#[derive(Debug)]
pub enum FailureClass {
    Status(u16),
    Error(String),
}

impl FailureClass {
    /// The error classification carried on a failure event.
    pub open spec fn label_view(self) -> Seq<char> {
        match self {
            FailureClass::Status(s) => "status-"@ + dec_seq(s as int),
            FailureClass::Error(m) => m@,
        }
    }

    pub fn label(self) -> (r: String)
        ensures
            r@ == self.label_view(),
    {
        match self {
            FailureClass::Status(s) => "status-".to_owned().concat(u64_to_dec(s as u64).as_str()),
            FailureClass::Error(m) => m,
        }
    }

    /// The status the client sees for this failure: the actual error status
    /// where one exists, 500 for an internal error.
    pub open spec fn status_code(self) -> u16 {
        match self {
            FailureClass::Status(s) => s,
            FailureClass::Error(_) => 500,
        }
    }

    pub fn status(&self) -> (r: u16)
        ensures
            r == self.status_code(),
    {
        match self {
            FailureClass::Status(s) => *s,
            FailureClass::Error(_) => 500,
        }
    }
}

/// The configured caps on one span. At least three event slots are needed to
/// hold the guaranteed lifecycle events (request-received, headers, one
/// terminal) without truncation.
#[derive(Clone, Copy, PartialEq, Eq, Structural, Debug)]
pub struct SpanLimits {
    pub max_events: usize,
    pub max_attributes: usize,
}

impl SpanLimits {
    pub open spec fn wf(self) -> bool {
        self.max_events >= 3
    }
}

/// One timestamped lifecycle event on a span.
pub struct SpanEvent {
    pub kind: EventKind,
    pub timestamp: u64,
    pub attributes: Vec<Attribute>,
}

/// One unit of traced work: a single request. Events are appended in strict
/// lifecycle order; chunk events beyond the event cap are silently dropped
/// (and counted), so a pathological streaming response cannot grow the span
/// without bound.
pub struct Span {
    pub trace_id: u64,
    pub span_id: u64,
    pub parent_span_id: Option<u64>,
    pub start_time: u64,
    pub end_time: Option<u64>,
    pub limits: SpanLimits,
    pub phase: Phase,
    pub events: Vec<SpanEvent>,
    pub attributes: Vec<Attribute>,
    pub dropped_events: u64,
    pub response_status: Option<u16>,
    pub last_event_time: u64,
}

/// The shape of a closed span's event list: request-received first, exactly
/// one terminal event last, the headers event second whenever anything
/// follows the opening event, and only chunk events in between.
pub open spec fn closed_shape(events: Seq<SpanEvent>) -> bool {
    &&& events.len() >= 2
    &&& events[0].kind == EventKind::RequestReceived
    &&& is_terminal(events.last().kind)
    &&& events.len() >= 3 ==> events[1].kind == EventKind::ResponseHeadersSent
    &&& forall|i: int|
        2 <= i < events.len() - 1 ==> events[i].kind == EventKind::BodyChunkProduced
    &&& events.last().kind == EventKind::StreamEnded ==> events.len() >= 3
}

/// The fields that never change after a span is opened.
pub open spec fn same_identity(a: Span, b: Span) -> bool {
    &&& a.trace_id == b.trace_id
    &&& a.span_id == b.span_id
    &&& a.parent_span_id == b.parent_span_id
    &&& a.start_time == b.start_time
    &&& a.limits == b.limits
}

impl Span {
    /// The timestamp the next event will carry: the given clock reading,
    /// clamped so that event times never run backwards within the span.
    pub open spec fn next_time(self, now: u64) -> u64 {
        if now > self.last_event_time {
            now
        } else {
            self.last_event_time
        }
    }

    /// Event timestamps never decrease along the list.
    pub open spec fn times_wf(self) -> bool {
        &&& self.start_time <= self.last_event_time
        &&& (self.events@.len() == 0 ==> self.last_event_time == self.start_time)
        &&& (self.events@.len() > 0 ==> self.last_event_time == self.events@.last().timestamp)
        &&& (self.events@.len() > 0 ==> self.start_time <= self.events@[0].timestamp)
        &&& forall|i: int, j: int|
            0 <= i <= j < self.events@.len() ==> self.events@[i].timestamp
                <= self.events@[j].timestamp
    }

    /// The span invariant: caps respected, timestamps ordered, and the event
    /// list in exactly the shape its lifecycle phase dictates.
    pub open spec fn wf(self) -> bool {
        &&& self.limits.wf()
        &&& self.events@.len() <= self.limits.max_events
        &&& self.attributes@.len() <= self.limits.max_attributes
        &&& self.times_wf()
        &&& match self.phase {
            Phase::Opened => {
                &&& self.events@.len() == 0
                &&& self.end_time is None
                &&& self.response_status is None
            },
            Phase::RequestRecorded => {
                &&& self.events@.len() == 1
                &&& self.events@[0].kind == EventKind::RequestReceived
                &&& self.end_time is None
                &&& self.response_status is None
            },
            Phase::HeadersRecorded => {
                &&& 2 <= self.events@.len() < self.limits.max_events
                &&& self.events@[0].kind == EventKind::RequestReceived
                &&& self.events@[1].kind == EventKind::ResponseHeadersSent
                &&& forall|i: int|
                    2 <= i < self.events@.len() ==> self.events@[i].kind
                        == EventKind::BodyChunkProduced
                &&& self.end_time is None
                &&& self.response_status is Some
            },
            Phase::Closed => {
                &&& closed_shape(self.events@)
                &&& self.end_time == Some(self.events@.last().timestamp)
            },
        }
    }

    /// Open a fresh span for one request, with the given trace context and
    /// the configured caps.
    pub fn open(
        trace_id: u64,
        span_id: u64,
        parent_span_id: Option<u64>,
        start_time: u64,
        limits: SpanLimits,
    ) -> (r: Span)
        requires
            limits.wf(),
        ensures
            r.wf(),
            r.phase == Phase::Opened,
            r.trace_id == trace_id,
            r.span_id == span_id,
            r.parent_span_id == parent_span_id,
            r.start_time == start_time,
            r.end_time is None,
            r.events@.len() == 0,
            r.attributes@.len() == 0,
            r.dropped_events == 0,
            r.limits == limits,
            r.last_event_time == start_time,
            r.response_status is None,
    {
        Span {
            trace_id,
            span_id,
            parent_span_id,
            start_time,
            end_time: None,
            limits,
            phase: Phase::Opened,
            events: Vec::new(),
            attributes: Vec::new(),
            dropped_events: 0,
            response_status: None,
            last_event_time: start_time,
        }
    }

    fn next_event_time(&self, now: u64) -> (r: u64)
        ensures
            r == self.next_time(now),
            r >= self.last_event_time,
            r >= now,
    {
        if now > self.last_event_time {
            now
        } else {
            self.last_event_time
        }
    }

    /// Record the opening lifecycle event, carrying the request method.
    pub fn record_request(&mut self, now: u64, method: String)
        requires
            old(self).wf(),
            old(self).phase == Phase::Opened,
        ensures
            final(self).wf(),
            final(self).phase == Phase::RequestRecorded,
            same_identity(*old(self), *final(self)),
            final(self).events@.len() == 1,
            final(self).events@[0].kind == EventKind::RequestReceived,
            final(self).events@[0].timestamp == old(self).next_time(now),
            final(self).events@[0].attributes@.len() == 1,
            final(self).events@[0].attributes@[0].key@ == "method"@,
            final(self).events@[0].attributes@[0].value == method,
            final(self).attributes == old(self).attributes,
            final(self).dropped_events == old(self).dropped_events,
            final(self).end_time is None,
            final(self).response_status is None,
            final(self).last_event_time == old(self).next_time(now),
    {
        let t = self.next_event_time(now);
        let mut attrs: Vec<Attribute> = Vec::new();
        attrs.push(Attribute { key: "method".to_owned(), value: method });
        self.events.push(SpanEvent { kind: EventKind::RequestReceived, timestamp: t, attributes: attrs });
        self.phase = Phase::RequestRecorded;
        self.last_event_time = t;
    }

    /// Record that response headers went out, carrying the status code and
    /// the time elapsed since the request was received.
    pub fn record_response_headers(&mut self, now: u64, status: u16)
        requires
            old(self).wf(),
            old(self).phase == Phase::RequestRecorded,
        ensures
            final(self).wf(),
            final(self).phase == Phase::HeadersRecorded,
            same_identity(*old(self), *final(self)),
            final(self).events@.drop_last() == old(self).events@,
            final(self).events@.last().kind == EventKind::ResponseHeadersSent,
            final(self).events@.last().timestamp == old(self).next_time(now),
            final(self).events@.last().attributes@.len() == 2,
            final(self).events@.last().attributes@[0].key@ == "http-status"@,
            final(self).events@.last().attributes@[0].value@ == dec_seq(status as int),
            final(self).events@.last().attributes@[1].key@ == "elapsed-us"@,
            final(self).events@.last().attributes@[1].value@ == dec_seq(
                old(self).next_time(now) - old(self).start_time,
            ),
            final(self).attributes == old(self).attributes,
            final(self).dropped_events == old(self).dropped_events,
            final(self).response_status == Some(status),
            final(self).end_time is None,
            final(self).last_event_time == old(self).next_time(now),
    {
        let t = self.next_event_time(now);
        let mut attrs: Vec<Attribute> = Vec::new();
        attrs.push(Attribute { key: "http-status".to_owned(), value: u64_to_dec(status as u64) });
        attrs.push(
            Attribute { key: "elapsed-us".to_owned(), value: u64_to_dec(t - self.start_time) },
        );
        self.events.push(
            SpanEvent { kind: EventKind::ResponseHeadersSent, timestamp: t, attributes: attrs },
        );
        self.phase = Phase::HeadersRecorded;
        self.response_status = Some(status);
        self.last_event_time = t;
        proof {
            assert(self.events@.drop_last() =~= old(self).events@);
        }
    }

    /// Record one produced body chunk, carrying its byte length and the time
    /// since the previous emission. Once the event cap leaves room only for
    /// the terminal event, further chunks are dropped silently and counted.
    pub fn record_body_chunk(&mut self, now: u64, bytes: u64)
        requires
            old(self).wf(),
            old(self).phase == Phase::HeadersRecorded,
        ensures
            final(self).wf(),
            final(self).phase == Phase::HeadersRecorded,
            same_identity(*old(self), *final(self)),
            final(self).attributes == old(self).attributes,
            final(self).response_status == old(self).response_status,
            final(self).end_time is None,
            old(self).events@.len() + 1 < old(self).limits.max_events ==> {
                &&& final(self).events@.drop_last() == old(self).events@
                &&& final(self).events@.last().kind == EventKind::BodyChunkProduced
                &&& final(self).events@.last().timestamp == old(self).next_time(now)
                &&& final(self).events@.last().attributes@.len() == 2
                &&& final(self).events@.last().attributes@[0].key@ == "chunk-bytes"@
                &&& final(self).events@.last().attributes@[0].value@ == dec_seq(bytes as int)
                &&& final(self).events@.last().attributes@[1].key@ == "elapsed-us"@
                &&& final(self).events@.last().attributes@[1].value@ == dec_seq(
                    old(self).next_time(now) - old(self).last_event_time,
                )
                &&& final(self).dropped_events == old(self).dropped_events
                &&& final(self).last_event_time == old(self).next_time(now)
            },
            old(self).events@.len() + 1 >= old(self).limits.max_events ==> {
                &&& final(self).events@ == old(self).events@
                &&& final(self).last_event_time == old(self).last_event_time
                &&& final(self).dropped_events == (if old(self).dropped_events < u64::MAX {
                    old(self).dropped_events + 1
                } else {
                    old(self).dropped_events as int
                })
            },
    {
        if self.events.len() + 1 < self.limits.max_events {
            let t = self.next_event_time(now);
            let mut attrs: Vec<Attribute> = Vec::new();
            attrs.push(Attribute { key: "chunk-bytes".to_owned(), value: u64_to_dec(bytes) });
            attrs.push(
                Attribute {
                    key: "elapsed-us".to_owned(),
                    value: u64_to_dec(t - self.last_event_time),
                },
            );
            self.events.push(
                SpanEvent { kind: EventKind::BodyChunkProduced, timestamp: t, attributes: attrs },
            );
            self.last_event_time = t;
            proof {
                assert(self.events@.drop_last() =~= old(self).events@);
            }
        } else {
            if self.dropped_events < u64::MAX {
                self.dropped_events = self.dropped_events + 1;
            }
        }
    }

    /// Record the stream-ended terminal event, carrying the total streaming
    /// duration, and close the span.
    pub fn record_stream_end(&mut self, now: u64)
        requires
            old(self).wf(),
            old(self).phase == Phase::HeadersRecorded,
        ensures
            final(self).wf(),
            final(self).phase == Phase::Closed,
            same_identity(*old(self), *final(self)),
            final(self).events@.drop_last() == old(self).events@,
            final(self).events@.last().kind == EventKind::StreamEnded,
            final(self).events@.last().timestamp == old(self).next_time(now),
            final(self).events@.last().attributes@.len() == 1,
            final(self).events@.last().attributes@[0].key@ == "total-us"@,
            final(self).events@.last().attributes@[0].value@ == dec_seq(
                old(self).next_time(now) - old(self).start_time,
            ),
            final(self).attributes == old(self).attributes,
            final(self).dropped_events == old(self).dropped_events,
            final(self).response_status == old(self).response_status,
            final(self).end_time == Some(old(self).next_time(now)),
            final(self).last_event_time == old(self).next_time(now),
    {
        let t = self.next_event_time(now);
        let mut attrs: Vec<Attribute> = Vec::new();
        attrs.push(
            Attribute { key: "total-us".to_owned(), value: u64_to_dec(t - self.start_time) },
        );
        self.events.push(SpanEvent { kind: EventKind::StreamEnded, timestamp: t, attributes: attrs });
        self.phase = Phase::Closed;
        self.end_time = Some(t);
        self.last_event_time = t;
        proof {
            assert(self.events@.drop_last() =~= old(self).events@);
        }
    }

    /// Record the failure terminal event, carrying the error classification
    /// and the elapsed time, and close the span. A failure may arrive before
    /// any headers went out or mid-stream (a dropped connection): either way
    /// the span is closed rather than leaked.
    pub fn record_failure(&mut self, now: u64, class: FailureClass)
        requires
            old(self).wf(),
            old(self).phase == Phase::RequestRecorded || old(self).phase == Phase::HeadersRecorded,
        ensures
            final(self).wf(),
            final(self).phase == Phase::Closed,
            same_identity(*old(self), *final(self)),
            final(self).events@.drop_last() == old(self).events@,
            final(self).events@.last().kind == EventKind::Failure,
            final(self).events@.last().timestamp == old(self).next_time(now),
            final(self).events@.last().attributes@.len() == 2,
            final(self).events@.last().attributes@[0].key@ == "error"@,
            final(self).events@.last().attributes@[0].value@ == class.label_view(),
            final(self).events@.last().attributes@[1].key@ == "elapsed-us"@,
            final(self).events@.last().attributes@[1].value@ == dec_seq(
                old(self).next_time(now) - old(self).start_time,
            ),
            final(self).attributes == old(self).attributes,
            final(self).dropped_events == old(self).dropped_events,
            final(self).response_status == old(self).response_status,
            final(self).end_time == Some(old(self).next_time(now)),
            final(self).last_event_time == old(self).next_time(now),
    {
        let t = self.next_event_time(now);
        let mut attrs: Vec<Attribute> = Vec::new();
        attrs.push(Attribute { key: "error".to_owned(), value: class.label() });
        attrs.push(
            Attribute { key: "elapsed-us".to_owned(), value: u64_to_dec(t - self.start_time) },
        );
        self.events.push(SpanEvent { kind: EventKind::Failure, timestamp: t, attributes: attrs });
        self.phase = Phase::Closed;
        self.end_time = Some(t);
        self.last_event_time = t;
        proof {
            assert(self.events@.drop_last() =~= old(self).events@);
        }
    }

    /// Set one span-level attribute; once the attribute cap is reached the
    /// attribute is silently dropped.
    pub fn set_attribute(&mut self, key: String, value: String)
        requires
            old(self).wf(),
        ensures
            final(self).wf(),
            final(self).phase == old(self).phase,
            same_identity(*old(self), *final(self)),
            final(self).events == old(self).events,
            final(self).dropped_events == old(self).dropped_events,
            final(self).response_status == old(self).response_status,
            final(self).end_time == old(self).end_time,
            final(self).last_event_time == old(self).last_event_time,
            old(self).attributes@.len() < old(self).limits.max_attributes ==> {
                &&& final(self).attributes@.drop_last() == old(self).attributes@
                &&& final(self).attributes@.last().key == key
                &&& final(self).attributes@.last().value == value
            },
            old(self).attributes@.len() >= old(self).limits.max_attributes
                ==> final(self).attributes@ == old(self).attributes@,
    {
        if self.attributes.len() < self.limits.max_attributes {
            self.attributes.push(Attribute { key, value });
            proof {
                assert(self.attributes@.drop_last() =~= old(self).attributes@);
            }
        }
    }
}

/// Law (bounded spans): a well-formed span never holds more events than the
/// configured per-span event cap, nor more attributes than the attribute
/// cap, however many chunks the handler produced.
pub proof fn lemma_span_within_caps(s: Span)
    requires
        s.wf(),
    ensures
        s.events@.len() <= s.limits.max_events,
        s.attributes@.len() <= s.limits.max_attributes,
{
}

/// How many terminal events an event list holds.
pub open spec fn terminal_count(events: Seq<SpanEvent>) -> int
    decreases events.len(),
{
    if events.len() == 0 {
        0
    } else {
        (if is_terminal(events.last().kind) {
            1int
        } else {
            0int
        }) + terminal_count(events.drop_last())
    }
}

proof fn lemma_terminal_count_zero(events: Seq<SpanEvent>)
    requires
        forall|i: int| 0 <= i < events.len() ==> !is_terminal(events[i].kind),
    ensures
        terminal_count(events) == 0,
    decreases events.len(),
{
    if events.len() > 0 {
        lemma_terminal_count_zero(events.drop_last());
    }
}

/// Law (closed-span shape): every closed span opens with request-received
/// and carries exactly one terminal event — stream-ended xor failure — as
/// its last event; every chunk event precedes the terminal event; and the
/// recorded end time is the terminal event's time, no earlier than the
/// span's start.
pub proof fn lemma_closed_span_terminal(s: Span)
    requires
        s.wf(),
        s.phase == Phase::Closed,
    ensures
        s.events@.len() >= 2,
        s.events@[0].kind == EventKind::RequestReceived,
        is_terminal(s.events@.last().kind),
        terminal_count(s.events@) == 1,
        forall|i: int| 0 <= i < s.events@.len() - 1 ==> !is_terminal(s.events@[i].kind),
        forall|i: int|
            0 <= i < s.events@.len() && s.events@[i].kind == EventKind::BodyChunkProduced ==> i
                < s.events@.len() - 1,
        s.end_time == Some(s.events@.last().timestamp),
        s.events@.last().timestamp >= s.start_time,
{
    let ev = s.events@;
    assert forall|i: int| 0 <= i < ev.len() - 1 implies !is_terminal(ev[i].kind) by {
        if i == 0 {
        } else if i == 1 {
        } else {
        }
    }
    assert forall|i: int| 0 <= i < ev.drop_last().len() implies !is_terminal(
        ev.drop_last()[i].kind,
    ) by {
        assert(ev.drop_last()[i] == ev[i]);
    }
    lemma_terminal_count_zero(ev.drop_last());
    assert(s.start_time <= ev[0].timestamp);
    assert(ev.last().timestamp >= s.start_time);
}

} // verus!
