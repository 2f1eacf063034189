//! Ordered assembly of the tracing-context stage and the augmenting
//! formatter stage into a composite pipeline.

use vstd::prelude::*;
use crate::stage::Action;
use crate::stage::EventKind;
use crate::stage::FieldNames;
use crate::stage::enter_plan_matches;
use crate::stage::injection_fields;
use crate::context::TraceContextSnapshot;

verus! {

/// The two inner stages of the composite pipeline.
#[derive(Clone, Copy, Debug, PartialEq, Eq, Structural)]
pub enum StageKind {
    TracingContext,
    AugmentingFormatter,
}

/// The assembled composite: the inner stages in the order they observe every
/// lifecycle event, and the field names the augmenting stage injects.
pub struct CompositePlan {
    pub stage_order: Vec<StageKind>,
    pub field_names: FieldNames,
}

impl CompositePlan {
    /// The tracing-context stage stands first and the augmenting formatter
    /// stage second, so the queried context is up to date at span entry.
    pub open spec fn wf(self) -> bool {
        self.stage_order@ == seq![StageKind::TracingContext, StageKind::AugmentingFormatter]
    }
}

/// Assembles a composite pipeline, with configurable field names. Single
/// use: `build` consumes it.
pub struct PipelineBuilder {
    pub field_names: FieldNames,
}

impl PipelineBuilder {
    /// A builder whose field names default to the well-known pair.
    pub fn new() -> (r: Self)
        ensures
            r.field_names.trace_field@ == "trace.id"@,
            r.field_names.span_field@ == "span.id"@,
    {
        PipelineBuilder { field_names: FieldNames::default() }
    }

    /// Replace the field-name pair. Effective only before `build`: the
    /// builder is gone afterwards, so a later call cannot exist.
    pub fn with_field_names(self, field_names: FieldNames) -> (r: Self)
        ensures
            r.field_names == field_names,
    {
        PipelineBuilder { field_names }
    }

    /// Produce the composite plan, the tracing-context stage ordered before
    /// the augmenting formatter stage. Consumes the builder.
    pub fn build(self) -> (r: CompositePlan)
        ensures
            r.wf(),
            r.field_names == self.field_names,
    {
        let mut stage_order: Vec<StageKind> = Vec::new();
        stage_order.push(StageKind::TracingContext);
        stage_order.push(StageKind::AugmentingFormatter);
        proof {
            assert(stage_order@ =~= seq![
                StageKind::TracingContext,
                StageKind::AugmentingFormatter,
            ]);
        }
        CompositePlan { stage_order, field_names: self.field_names }
    }
}

/// Each inner stage of the composite observing event `kind`, in pipeline
/// order: the registry delivers every event to the stages in this sequence.
pub open spec fn dispatch_sequence(c: CompositePlan, kind: EventKind) -> Seq<
    (StageKind, EventKind),
> {
    c.stage_order@.map(|i: int, s: StageKind| (s, kind))
}

/// Law: in a well-formed composite the tracing-context stage observes any
/// given lifecycle event, and the augmenting formatter stage observes the
/// same event strictly after it — for every event kind, with no exception.
pub proof fn lemma_context_stage_observes_first(c: CompositePlan, kind: EventKind)
    requires
        c.wf(),
    ensures
        dispatch_sequence(c, kind) =~= seq![
            (StageKind::TracingContext, kind),
            (StageKind::AugmentingFormatter, kind),
        ],
{
}

/// Law: the field names configured on the composite are the names the
/// injected record carries, in their fixed order — custom names replace the
/// defaults everywhere the record is synthesized.
pub proof fn lemma_field_names_configurable(
    c: CompositePlan,
    s: TraceContextSnapshot,
    acts: Seq<Action>,
)
    requires
        s.valid,
        enter_plan_matches(c.field_names, s, acts),
    ensures
        acts[1] matches Action::Record(rec) && {
            &&& rec@.len() == 2
            &&& rec@[0].0 == c.field_names.trace_field@
            &&& rec@[1].0 == c.field_names.span_field@
        },
{
    assert(acts[1] matches Action::Record(rec) && rec@ == injection_fields(c.field_names, s));
}

} // verus!
