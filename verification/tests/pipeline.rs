use tracing_opentelemetry_fmt::builder::PipelineBuilder;
use tracing_opentelemetry_fmt::builder::StageKind;
use tracing_opentelemetry_fmt::context::TraceContextSnapshot;
use tracing_opentelemetry_fmt::context::resolve_active_context;
use tracing_opentelemetry_fmt::hex::span_id_hex;
use tracing_opentelemetry_fmt::hex::trace_id_hex;
use tracing_opentelemetry_fmt::stage::Action;
use tracing_opentelemetry_fmt::stage::EventKind;
use tracing_opentelemetry_fmt::stage::FieldNames;
use tracing_opentelemetry_fmt::stage::enter_span_actions;
use tracing_opentelemetry_fmt::stage::on_enter_actions;
use tracing_opentelemetry_fmt::stage::plan_event;
use tracing_opentelemetry_fmt::stage::synthesize_record;

fn default_names() -> FieldNames {
    FieldNames::default()
}

#[test]
fn default_field_names_are_the_well_known_pair() {
    let names = default_names();
    assert_eq!(names.trace_field, "trace.id");
    assert_eq!(names.span_field, "span.id");
    let builder = PipelineBuilder::new();
    assert_eq!(builder.field_names.trace_field, "trace.id");
    assert_eq!(builder.field_names.span_field, "span.id");
}

#[test]
fn test_with_field_names() {
    let names = FieldNames {
        trace_field: "custom.trace.id".to_string(),
        span_field: "custom.span.id".to_string(),
    };
    let plan = PipelineBuilder::new().with_field_names(names).build();
    assert_eq!(plan.field_names.trace_field, "custom.trace.id");
    assert_eq!(plan.field_names.span_field, "custom.span.id");

    let snapshot = TraceContextSnapshot { valid: true, trace_id: 0x1234, span_id: 0x5678 };
    let actions = enter_span_actions(&plan.field_names, &snapshot);
    assert_eq!(actions.len(), 2);
    match &actions[1] {
        Action::Record(record) => {
            assert_eq!(record.fields[0].0, "custom.trace.id");
            assert_eq!(record.fields[1].0, "custom.span.id");
        }
        other => panic!("expected a record action, got {:?}", other),
    }
}

#[test]
fn delegation_is_transparent_for_every_other_event() {
    let kinds = [
        EventKind::LayerAttach,
        EventKind::CallsiteRegistration,
        EventKind::InterestQuery,
        EventKind::EnabledQuery,
        EventKind::NewSpan,
        EventKind::RecordFields,
        EventKind::FollowsFrom,
        EventKind::EventEnabledQuery,
        EventKind::EmitEvent,
        EventKind::ExitSpan,
        EventKind::CloseSpan,
        EventKind::ChangeId,
        EventKind::MaxLevelQuery,
        EventKind::CapabilityDowncast,
    ];
    let names = default_names();
    for kind in kinds {
        let actions = plan_event(&names, kind);
        assert_eq!(actions.len(), 1);
        assert_eq!(actions[0], Action::Forward(kind));
    }
}

#[test]
fn injection_on_valid_context_is_exactly_one_ordered_record() {
    let names = default_names();
    let snapshot = TraceContextSnapshot {
        valid: true,
        trace_id: 0xAAAAAAAAAAAAAAAAAAAAAAAAAAAAAAAA,
        span_id: 0xBBBBBBBBBBBBBBBB,
    };
    let actions = enter_span_actions(&names, &snapshot);
    assert_eq!(actions.len(), 2);
    assert_eq!(actions[0], Action::Forward(EventKind::EnterSpan));
    match &actions[1] {
        Action::Record(record) => {
            assert_eq!(record.fields.len(), 2);
            assert_eq!(record.fields[0].0, "trace.id");
            assert_eq!(record.fields[0].1, "aaaaaaaaaaaaaaaaaaaaaaaaaaaaaaaa");
            assert_eq!(record.fields[1].0, "span.id");
            assert_eq!(record.fields[1].1, "bbbbbbbbbbbbbbbb");
        }
        other => panic!("expected a record action, got {:?}", other),
    }
}

#[test]
fn no_injection_on_invalid_context() {
    let names = default_names();
    let snapshot = TraceContextSnapshot { valid: false, trace_id: 0, span_id: 0 };
    assert_eq!(synthesize_record(&names, &snapshot), None);
    let actions = enter_span_actions(&names, &snapshot);
    assert_eq!(actions.len(), 1);
    assert_eq!(actions[0], Action::Forward(EventKind::EnterSpan));
}

#[test]
fn entering_without_a_tracing_pipeline_injects_nothing() {
    // No subscriber is installed, so the ambient context is always invalid:
    // span entry forwards the event and nothing else, with no error.
    let snapshot = resolve_active_context();
    assert!(!snapshot.valid);
    let names = default_names();
    let actions = on_enter_actions(&names);
    assert_eq!(actions.len(), 1);
    assert_eq!(actions[0], Action::Forward(EventKind::EnterSpan));
    let planned = plan_event(&names, EventKind::EnterSpan);
    assert_eq!(planned.len(), 1);
}

#[test]
fn identifiers_render_as_fixed_width_lowercase_hex() {
    assert_eq!(span_id_hex(0x0123456789ABCDEF), "0123456789abcdef");
    assert_eq!(span_id_hex(0), "0000000000000000");
    assert_eq!(span_id_hex(u64::MAX), "ffffffffffffffff");
    assert_eq!(trace_id_hex(1), "00000000000000000000000000000001");
    assert_eq!(trace_id_hex(u128::MAX), "ffffffffffffffffffffffffffffffff");
    assert_eq!(
        trace_id_hex(0x0102030405060708090A0B0C0D0E0F10),
        "0102030405060708090a0b0c0d0e0f10"
    );
}

#[test]
fn composite_orders_the_context_stage_first() {
    let plan = PipelineBuilder::new().build();
    assert_eq!(
        plan.stage_order,
        vec![StageKind::TracingContext, StageKind::AugmentingFormatter]
    );
    let renamed = PipelineBuilder::new()
        .with_field_names(FieldNames {
            trace_field: "custom.trace.id".to_string(),
            span_field: "custom.span.id".to_string(),
        })
        .build();
    assert_eq!(
        renamed.stage_order,
        vec![StageKind::TracingContext, StageKind::AugmentingFormatter]
    );
}
