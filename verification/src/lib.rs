//! A pipeline stage that merges distributed-tracing identifiers into
//! structured log output.
//!
//! On span entry the stage queries the active trace context and, when it is
//! valid, injects the trace id and span id as two named string fields into
//! the wrapped formatting stage's field-recording path; every other
//! lifecycle event is delegated unchanged. A builder assembles the
//! tracing-context stage and the augmenting formatter stage into a composite
//! pipeline in which the context stage observes every event first.

pub mod builder;
pub mod context;
pub mod hex;
pub mod stage;
