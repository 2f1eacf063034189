//! The active distributed-tracing context, read as a point-in-time snapshot.
//!
//! The tracing-context stage owns and mutates this state; the augmenting
//! formatter stage only queries it, once, at span-entry time.

use vstd::prelude::*;
use opentelemetry::trace::TraceContextExt;
use tracing_opentelemetry::OpenTelemetrySpanExt;

verus! {

/// A point-in-time snapshot of the active trace context: a validity flag and
/// the two fixed-width identifiers, each as the integer its big-endian bytes
/// spell.
#[derive(Clone, Copy, Debug, PartialEq, Eq, Structural)]
pub struct TraceContextSnapshot {
    pub valid: bool,
    pub trace_id: u128,
    pub span_id: u64,
}

impl TraceContextSnapshot {
    /// A valid snapshot carries nonzero identifiers: zero is the reserved
    /// invalid token for both identifier widths.
    pub open spec fn wf(self) -> bool {
        self.valid ==> self.trace_id != 0 && self.span_id != 0
    }
}

/// Relies on `tracing::Span::current` and
/// `tracing_opentelemetry::OpenTelemetrySpanExt::context` to reach the span
/// context of the current span, and on `opentelemetry`'s `SpanContext`:
/// `is_valid` returns true exactly when the trace id and the span id are
/// both nonzero, and `TraceId::to_bytes` / `SpanId::to_bytes` give the
/// big-endian bytes of the identifiers. The snapshot depends on ambient
/// per-thread state, so nothing more is promised of any one call.
#[verifier::external_body]
fn query_active_context() -> (r: (bool, u128, u64))
    ensures
        r.0 ==> r.1 != 0 && r.2 != 0,
{
    let context = tracing::Span::current().context();
    let span = context.span();
    let span_context = span.span_context();
    let valid = span_context.is_valid();
    let trace_id = u128::from_be_bytes(span_context.trace_id().to_bytes());
    let span_id = u64::from_be_bytes(span_context.span_id().to_bytes());
    (valid, trace_id, span_id)
}

/// Resolve the currently active trace context as a snapshot. Whatever state
/// the tracing-context stage is in, the snapshot is well formed.
pub fn resolve_active_context() -> (s: TraceContextSnapshot)
    ensures
        s.wf(),
{
    let (valid, trace_id, span_id) = query_active_context();
    TraceContextSnapshot { valid, trace_id, span_id }
}

} // verus!
