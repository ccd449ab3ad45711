use vstd::prelude::*;

use crate::span::{Phase, Span, SpanLimits};

verus! {

/// The recognized configuration surface of the exporter pipeline: the
/// collector base endpoint, the per-kind export timeouts, the metrics flush
/// period, the per-span caps, and the service name attached as the resource
/// of every exported span and counter sample.
pub struct ExporterConfig {
    pub endpoint: String,
    pub trace_timeout_secs: u64,
    pub metrics_period_secs: u64,
    pub metrics_timeout_secs: u64,
    pub limits: SpanLimits,
    pub service_name: String,
}

impl ExporterConfig {
    /// A configuration is well formed when the endpoint names somewhere, the
    /// period and timeouts are positive, and the span caps leave room for
    /// the guaranteed lifecycle events.
    pub open spec fn wf(self) -> bool {
        &&& self.endpoint@.len() > 0
        &&& self.trace_timeout_secs > 0
        &&& self.metrics_period_secs > 0
        &&& self.metrics_timeout_secs > 0
        &&& self.limits.wf()
    }

    /// The defaults: collector at 127.0.0.1:4317, 3 s trace export timeout,
    /// 60 s metrics flush period with a 10 s export timeout, 64 events and
    /// 16 attributes per span.
    pub fn default_for(service_name: String) -> (r: ExporterConfig)
        ensures
            r.wf(),
            r.endpoint@ == "127.0.0.1:4317"@,
            r.trace_timeout_secs == 3,
            r.metrics_period_secs == 60,
            r.metrics_timeout_secs == 10,
            r.limits.max_events == 64,
            r.limits.max_attributes == 16,
            r.service_name@ == service_name@,
    {
        let r = ExporterConfig {
            endpoint: "127.0.0.1:4317".to_owned(),
            trace_timeout_secs: 3,
            metrics_period_secs: 60,
            metrics_timeout_secs: 10,
            limits: SpanLimits { max_events: 64, max_attributes: 16 },
            service_name,
        };
        proof {
            reveal_strlit("127.0.0.1:4317");
        }
        r
    }

    /// The logical traces destination under the base endpoint.
    pub fn traces_endpoint(&self) -> (r: String)
        ensures
            r@ == self.endpoint@ + "/v1/traces"@,
    {
        self.endpoint.clone().concat("/v1/traces")
    }

    /// The logical metrics destination under the base endpoint.
    pub fn metrics_endpoint(&self) -> (r: String)
        ensures
            r@ == self.endpoint@ + "/v1/metrics"@,
    {
        self.endpoint.clone().concat("/v1/metrics")
    }
}

/// Why initialization failed. Neither error is fatal by itself: the caller
/// decides whether to abort or to serve without telemetry.
#[derive(Clone, Copy, PartialEq, Eq, Structural, Debug)]
pub enum InitError {
    Misconfigured,
    CollectorUnreachable,
}

/// The installed trace pipeline: where trace batches go, under which
/// timeout and caps, plus the buffer of closed spans awaiting the next
/// periodic export.
pub struct TracerHandle {
    pub traces_endpoint: String,
    pub export_timeout_secs: u64,
    pub limits: SpanLimits,
    pub service_name: String,
    pub pending: Vec<Span>,
}

impl TracerHandle {
    /// Only whole, closed spans ever wait for export.
    pub open spec fn wf(self) -> bool {
        &&& self.limits.wf()
        &&& forall|i: int|
            0 <= i < self.pending@.len() ==> (self.pending@[i].wf() && self.pending@[i].phase
                == Phase::Closed)
    }

    /// The sampling policy is always-on: every span is recorded, none is
    /// discarded probabilistically.
    pub fn should_sample(&self) -> (r: bool)
        ensures
            r,
    {
        true
    }

    /// Queue one closed span for the next batch export.
    pub fn enqueue(&mut self, span: Span)
        requires
            old(self).wf(),
            span.wf(),
            span.phase == Phase::Closed,
        ensures
            final(self).wf(),
            final(self).pending@.drop_last() == old(self).pending@,
            final(self).pending@.last() == span,
            final(self).traces_endpoint == old(self).traces_endpoint,
            final(self).export_timeout_secs == old(self).export_timeout_secs,
            final(self).limits == old(self).limits,
            final(self).service_name == old(self).service_name,
    {
        self.pending.push(span);
        proof {
            assert(self.pending@.drop_last() =~= old(self).pending@);
        }
    }

    /// Drain the whole pending buffer as one batch for an export run.
    pub fn take_batch(&mut self) -> (batch: Vec<Span>)
        requires
            old(self).wf(),
        ensures
            final(self).wf(),
            batch@ == old(self).pending@,
            final(self).pending@.len() == 0,
            final(self).traces_endpoint == old(self).traces_endpoint,
            final(self).export_timeout_secs == old(self).export_timeout_secs,
            final(self).limits == old(self).limits,
            final(self).service_name == old(self).service_name,
    {
        let mut batch: Vec<Span> = Vec::new();
        core::mem::swap(&mut self.pending, &mut batch);
        batch
    }
}

/// The installed metrics pipeline: where counter batches go, how often they
/// flush, and under which timeout.
pub struct MetricsControllerHandle {
    pub metrics_endpoint: String,
    pub period_secs: u64,
    pub timeout_secs: u64,
    pub service_name: String,
}

/// Build the trace export pipeline for a configuration. Opening the
/// connection is the embedding's work; `connect_ok` reports whether the
/// initial handshake with the collector succeeded. Initialization returns a
/// handle exactly when the configuration is well formed and the collector
/// was reachable; otherwise it returns the error naming which of the two
/// went wrong, and the caller chooses between aborting and serving without
/// telemetry.
pub fn init_tracer(config: &ExporterConfig, connect_ok: bool) -> (r: Result<
    TracerHandle,
    InitError,
>)
    ensures
        r is Ok <==> (config.wf() && connect_ok),
        !config.wf() ==> r == Err::<TracerHandle, InitError>(InitError::Misconfigured),
        config.wf() && !connect_ok ==> r == Err::<TracerHandle, InitError>(
            InitError::CollectorUnreachable,
        ),
        r matches Ok(h) ==> {
            &&& h.wf()
            &&& h.traces_endpoint@ == config.endpoint@ + "/v1/traces"@
            &&& h.export_timeout_secs == config.trace_timeout_secs
            &&& h.limits == config.limits
            &&& h.service_name@ == config.service_name@
            &&& h.pending@.len() == 0
        },
{
    if config.endpoint.as_str().is_empty() || config.trace_timeout_secs == 0
        || config.metrics_period_secs == 0 || config.metrics_timeout_secs == 0
        || config.limits.max_events < 3 {
        Err(InitError::Misconfigured)
    } else if !connect_ok {
        Err(InitError::CollectorUnreachable)
    } else {
        Ok(
            TracerHandle {
                traces_endpoint: config.traces_endpoint(),
                export_timeout_secs: config.trace_timeout_secs,
                limits: config.limits,
                service_name: config.service_name.clone(),
                pending: Vec::new(),
            },
        )
    }
}

/// Build the metrics export pipeline for a configuration, under the same
/// success and failure conditions as `init_tracer`.
pub fn init_metrics(config: &ExporterConfig, connect_ok: bool) -> (r: Result<
    MetricsControllerHandle,
    InitError,
>)
    ensures
        r is Ok <==> (config.wf() && connect_ok),
        !config.wf() ==> r == Err::<MetricsControllerHandle, InitError>(InitError::Misconfigured),
        config.wf() && !connect_ok ==> r == Err::<MetricsControllerHandle, InitError>(
            InitError::CollectorUnreachable,
        ),
        r matches Ok(h) ==> {
            &&& h.metrics_endpoint@ == config.endpoint@ + "/v1/metrics"@
            &&& h.period_secs == config.metrics_period_secs
            &&& h.timeout_secs == config.metrics_timeout_secs
            &&& h.service_name@ == config.service_name@
        },
{
    if config.endpoint.as_str().is_empty() || config.trace_timeout_secs == 0
        || config.metrics_period_secs == 0 || config.metrics_timeout_secs == 0
        || config.limits.max_events < 3 {
        Err(InitError::Misconfigured)
    } else if !connect_ok {
        Err(InitError::CollectorUnreachable)
    } else {
        Ok(
            MetricsControllerHandle {
                metrics_endpoint: config.metrics_endpoint(),
                period_secs: config.metrics_period_secs,
                timeout_secs: config.metrics_timeout_secs,
                service_name: config.service_name.clone(),
            },
        )
    }
}

/// What one export attempt concluded: the collector took the batch, or the
/// per-export timeout struck first.
#[derive(Clone, Copy, PartialEq, Eq, Structural, Debug)]
pub enum ExportOutcome {
    Delivered,
    TimedOut,
}

/// The disposition of one finished export attempt.
#[derive(Clone, Copy, PartialEq, Eq, Structural, Debug)]
pub struct ExportReport {
    pub delivered: bool,
    pub dropped_spans: usize,
    pub warn: bool,
    pub fatal: bool,
}

/// The export failure policy: a batch that could not be delivered within its
/// timeout is dropped, a warning is surfaced, and — never being fatal — the
/// process keeps serving.
pub fn resolve_export(outcome: ExportOutcome, batch_len: usize) -> (r: ExportReport)
    ensures
        !r.fatal,
        r.delivered <==> outcome == ExportOutcome::Delivered,
        r.warn <==> outcome == ExportOutcome::TimedOut,
        r.dropped_spans == (if outcome == ExportOutcome::TimedOut {
            batch_len as int
        } else {
            0
        }),
{
    match outcome {
        ExportOutcome::Delivered => ExportReport {
            delivered: true,
            dropped_spans: 0,
            warn: false,
            fatal: false,
        },
        ExportOutcome::TimedOut => ExportReport {
            delivered: false,
            dropped_spans: batch_len,
            warn: true,
            fatal: false,
        },
    }
}

/// A periodic export is due once a full flush period has elapsed since the
/// last flush, measured on a clock that may be read out of order.
pub fn export_due(now: u64, last_flush: u64, period: u64) -> (r: bool)
    ensures
        r <==> (now >= last_flush && now - last_flush >= period),
{
    now >= last_flush && now - last_flush >= period
}

} // verus!
