//! The augmenting formatter stage's decision logic: the calls it makes into
//! the wrapped formatting stage for each lifecycle event, and the field
//! record it synthesizes on span entry.

use vstd::prelude::*;
use crate::context::TraceContextSnapshot;
use crate::context::resolve_active_context;
use crate::hex::hex_seq;
use crate::hex::trace_id_hex;
use crate::hex::span_id_hex;

verus! {

/// The names of the two injected fields, fixed for the stage's lifetime and
/// configurable only at construction time.
#[derive(Debug)]
pub struct FieldNames {
    pub trace_field: String,
    pub span_field: String,
}

impl Default for FieldNames {
    /// The well-known default field names.
    fn default() -> (r: Self)
        ensures
            r.trace_field@ == "trace.id"@,
            r.span_field@ == "span.id"@,
    {
        FieldNames { trace_field: "trace.id".to_owned(), span_field: "span.id".to_owned() }
    }
}

/// One lifecycle event kind, as dispatched by the event-subscription
/// registry to every composed stage.
#[derive(Clone, Copy, Debug, PartialEq, Eq, Structural)]
pub enum EventKind {
    LayerAttach,
    CallsiteRegistration,
    InterestQuery,
    EnabledQuery,
    NewSpan,
    RecordFields,
    FollowsFrom,
    EventEnabledQuery,
    EmitEvent,
    EnterSpan,
    ExitSpan,
    CloseSpan,
    ChangeId,
    MaxLevelQuery,
    CapabilityDowncast,
}

/// The ephemeral field record synthesized for one span activation: ordered
/// name/value pairs fed to the wrapped stage's field-recording path.
#[derive(Debug, PartialEq, Eq)]
pub struct SynthesizedRecord {
    pub fields: Vec<(String, String)>,
}

impl View for SynthesizedRecord {
    type V = Seq<(Seq<char>, Seq<char>)>;

    open spec fn view(&self) -> Seq<(Seq<char>, Seq<char>)> {
        self.fields@.map(|i: int, f: (String, String)| (f.0@, f.1@))
    }
}

/// One call the augmenting stage makes into the wrapped formatting stage.
#[derive(Debug, PartialEq, Eq)]
pub enum Action {
    /// Forward the lifecycle event verbatim; the return value, if any, is
    /// the wrapped stage's own.
    Forward(EventKind),
    /// Feed a synthesized field record into the wrapped stage's
    /// field-recording path, for the span being entered.
    Record(SynthesizedRecord),
}

/// The two injected fields, in their fixed order: the trace-id field name
/// paired with the 32-digit hexadecimal trace id, then the span-id field
/// name paired with the 16-digit hexadecimal span id.
pub open spec fn injection_fields(names: FieldNames, s: TraceContextSnapshot) -> Seq<
    (Seq<char>, Seq<char>),
> {
    seq![
        (names.trace_field@, hex_seq(s.trace_id as int, 32)),
        (names.span_field@, hex_seq(s.span_id as int, 16)),
    ]
}

/// What the stage does on span entry under context snapshot `s`: it forwards
/// the entry event first and, exactly when the snapshot is valid, follows it
/// with one record holding the two injected fields and nothing else; on an
/// invalid snapshot it injects nothing and raises no error.
pub open spec fn enter_plan_matches(
    names: FieldNames,
    s: TraceContextSnapshot,
    acts: Seq<Action>,
) -> bool {
    &&& acts.len() == if s.valid {
        2int
    } else {
        1int
    }
    &&& acts[0] == Action::Forward(EventKind::EnterSpan)
    &&& s.valid ==> (acts[1] matches Action::Record(rec) && rec@ == injection_fields(names, s))
}

/// Synthesize the field record for one span activation: `Some` with the two
/// injected fields exactly when the snapshot is valid, `None` otherwise.
pub fn synthesize_record(names: &FieldNames, snapshot: &TraceContextSnapshot) -> (r: Option<
    SynthesizedRecord,
>)
    ensures
        snapshot.valid <==> r is Some,
        snapshot.valid ==> (r matches Some(rec) && rec@ == injection_fields(*names, *snapshot)),
{
    if snapshot.valid {
        let mut fields: Vec<(String, String)> = Vec::new();
        fields.push((names.trace_field.clone(), trace_id_hex(snapshot.trace_id)));
        fields.push((names.span_field.clone(), span_id_hex(snapshot.span_id)));
        let record = SynthesizedRecord { fields };
        proof {
            assert(record@ =~= injection_fields(*names, *snapshot));
        }
        Some(record)
    } else {
        None
    }
}

/// The calls the stage makes on span entry under snapshot `snapshot`,
/// verified for every snapshot value: the forwarded entry event, then the
/// synthesized record exactly when the snapshot is valid.
pub fn enter_span_actions(names: &FieldNames, snapshot: &TraceContextSnapshot) -> (r: Vec<Action>)
    ensures
        enter_plan_matches(*names, *snapshot, r@),
{
    let mut actions: Vec<Action> = Vec::new();
    actions.push(Action::Forward(EventKind::EnterSpan));
    match synthesize_record(names, snapshot) {
        Some(record) => {
            actions.push(Action::Record(record));
        },
        None => {},
    }
    actions
}

/// The calls the stage makes on span entry, resolving the ambient trace
/// context itself: whatever snapshot came back, it is well formed and the
/// calls follow the span-entry plan for it.
pub fn on_enter_actions(names: &FieldNames) -> (r: Vec<Action>)
    ensures
        r@.len() >= 1,
        r@[0] == Action::Forward(EventKind::EnterSpan),
        exists|s: TraceContextSnapshot| s.wf() && #[trigger] enter_plan_matches(*names, s, r@),
{
    let snapshot = resolve_active_context();
    let actions = enter_span_actions(names, &snapshot);
    proof {
        assert(enter_plan_matches(*names, snapshot, actions@));
    }
    actions
}

/// The calls the stage makes for one lifecycle event. Every event kind other
/// than span entry is forwarded verbatim to the wrapped stage, and nothing
/// else happens; span entry follows the span-entry plan for the ambient
/// context snapshot.
pub fn plan_event(names: &FieldNames, kind: EventKind) -> (r: Vec<Action>)
    ensures
        r@.len() >= 1,
        r@[0] == Action::Forward(kind),
        kind != EventKind::EnterSpan ==> r@ == seq![Action::Forward(kind)],
        kind == EventKind::EnterSpan ==> exists|s: TraceContextSnapshot|
            s.wf() && #[trigger] enter_plan_matches(*names, s, r@),
{
    match kind {
        EventKind::EnterSpan => on_enter_actions(names),
        _ => {
            let mut actions: Vec<Action> = Vec::new();
            actions.push(Action::Forward(kind));
            proof {
                assert(actions@ =~= seq![Action::Forward(kind)]);
            }
            actions
        },
    }
}

} // verus!
