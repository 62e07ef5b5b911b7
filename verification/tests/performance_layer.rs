use tracing_web::performance_layer;
use tracing_web::{
    DefaultFieldFormatter, Field, FieldValue, FormatSpan, Performance, SpanData, SpanDetailStore,
    TimelineEntry,
};
use tracing_web::measure_after_exit_mark;
use tracing_web::{MarkCommand, MeasureCommand};

fn int_field(name: &str, v: i64) -> Field {
    Field { name: name.to_string(), value: FieldValue::Int(v) }
}

fn span(name: &str, id: u64) -> SpanData {
    SpanData { name: name.to_string(), id, extensions: SpanDetailStore::empty() }
}

fn expect_mark(entry: &TimelineEntry, want_name: &str, want_detail: Option<&str>) {
    match entry {
        TimelineEntry::Mark { name, detail } => {
            assert_eq!(name, want_name);
            assert_eq!(detail.as_deref(), want_detail);
        },
        TimelineEntry::Measure { .. } => panic!("expected a mark, found a measure"),
    }
}

fn expect_measure(
    entry: &TimelineEntry,
    want_name: &str,
    want_start: &str,
    want_end: &str,
    want_detail: Option<&str>,
) {
    match entry {
        TimelineEntry::Measure { name, start, end, detail } => {
            assert_eq!(name, want_name);
            assert_eq!(start, want_start);
            assert_eq!(end, want_end);
            assert_eq!(detail.as_deref(), want_detail);
        },
        TimelineEntry::Mark { .. } => panic!("expected a measure, found a mark"),
    }
}

#[test]
fn span_lifecycle_scenario() {
    let layer = performance_layer().with_details_from_fields(DefaultFieldFormatter);
    let mut req = span("req", 1);
    let mut perf = Performance::new();

    layer.on_new_span(&mut req, &vec![int_field("a", 1)]);
    layer.on_enter(&req, &mut perf);
    layer.on_record(&mut req, &vec![int_field("b", 2)], &mut perf);
    layer.on_exit(&req, &mut perf);

    assert_eq!(perf.entries.len(), 4);
    expect_mark(&perf.entries[0], "req [1]: span-enter", Some("a=1"));
    expect_mark(&perf.entries[1], "req [1]: span-record", Some("a=1 b=2"));
    expect_mark(&perf.entries[2], "req [1]: span-exit", Some("a=1 b=2"));
    expect_measure(
        &perf.entries[3],
        "req [1]: span-measure",
        "req [1]: span-enter",
        "req [1]: span-exit",
        Some("a=1 b=2"),
    );
}

#[test]
fn records_before_first_enter_merge_in_order() {
    let layer = performance_layer().with_details_from_fields(DefaultFieldFormatter);
    let mut job = span("job", 7);
    let mut perf = Performance::new();

    layer.on_new_span(&mut job, &vec![int_field("a", 1)]);
    layer.on_record(&mut job, &vec![int_field("b", 2)], &mut perf);
    layer.on_record(&mut job, &vec![int_field("c", 3)], &mut perf);
    layer.on_record(&mut job, &vec![int_field("d", 4)], &mut perf);
    layer.on_enter(&job, &mut perf);

    assert_eq!(perf.entries.len(), 4);
    expect_mark(&perf.entries[0], "job [7]: span-record", Some("a=1 b=2"));
    expect_mark(&perf.entries[1], "job [7]: span-record", Some("a=1 b=2 c=3"));
    expect_mark(&perf.entries[2], "job [7]: span-record", Some("a=1 b=2 c=3 d=4"));
    expect_mark(&perf.entries[3], "job [7]: span-enter", Some("a=1 b=2 c=3 d=4"));
}

#[test]
fn noop_formatter_never_yields_details() {
    let layer = performance_layer();
    let mut quiet = span("quiet", 3);
    let mut perf = Performance::new();

    layer.on_new_span(&mut quiet, &vec![int_field("a", 1)]);
    layer.on_record(&mut quiet, &vec![int_field("b", 2)], &mut perf);
    layer.on_enter(&quiet, &mut perf);
    layer.on_exit(&quiet, &mut perf);

    assert_eq!(perf.entries.len(), 4);
    expect_mark(&perf.entries[0], "quiet [3]: span-record", None);
    expect_mark(&perf.entries[1], "quiet [3]: span-enter", None);
    expect_mark(&perf.entries[2], "quiet [3]: span-exit", None);
    expect_measure(
        &perf.entries[3],
        "quiet [3]: span-measure",
        "quiet [3]: span-enter",
        "quiet [3]: span-exit",
        None,
    );
    assert!(().find_details(&quiet.extensions).is_none());
}

#[test]
fn exit_without_enter_records_no_measure() {
    let layer = performance_layer();
    let lone = span("lone", 9);
    let mut perf = Performance::new();

    layer.on_exit(&lone, &mut perf);

    assert_eq!(perf.entries.len(), 1);
    expect_mark(&perf.entries[0], "lone [9]: span-exit", None);
}

#[test]
fn failed_exit_mark_skips_measure() {
    let measure = MeasureCommand {
        name: "req [1]: span-measure".to_string(),
        start: "req [1]: span-enter".to_string(),
        end: "req [1]: span-exit".to_string(),
        detail: None,
    };
    assert!(measure_after_exit_mark(measure, false).is_none());

    let measure = MeasureCommand {
        name: "req [1]: span-measure".to_string(),
        start: "req [1]: span-enter".to_string(),
        end: "req [1]: span-exit".to_string(),
        detail: None,
    };
    let followed = measure_after_exit_mark(measure, true).expect("an accepted mark owes a measure");
    assert_eq!(followed.name, "req [1]: span-measure");
}

#[test]
fn exit_commands_pair_mark_and_measure() {
    let layer = performance_layer().with_details_from_fields(DefaultFieldFormatter);
    let mut req = span("req", 1);
    layer.on_new_span(&mut req, &vec![int_field("a", 1)]);

    let (mark, measure) = layer.exit_commands(&req);
    assert_eq!(mark.name, "req [1]: span-exit");
    assert_eq!(mark.detail.as_deref(), Some("a=1"));
    assert_eq!(measure.name, "req [1]: span-measure");
    assert_eq!(measure.start, "req [1]: span-enter");
    assert_eq!(measure.end, "req [1]: span-exit");
    assert_eq!(measure.detail.as_deref(), Some("a=1"));
}

#[test]
fn enter_and_record_commands_carry_current_detail() {
    let layer = performance_layer().with_details_from_fields(DefaultFieldFormatter);
    let mut req = span("req", 2);
    layer.on_new_span(&mut req, &vec![int_field("a", 1)]);

    let enter: MarkCommand = layer.enter_command(&req);
    assert_eq!(enter.name, "req [2]: span-enter");
    assert_eq!(enter.detail.as_deref(), Some("a=1"));

    let record = layer.record_command(&mut req, &vec![int_field("b", 2)]);
    assert_eq!(record.name, "req [2]: span-record");
    assert_eq!(record.detail.as_deref(), Some("a=1 b=2"));
}

#[test]
fn id_change_only_warns() {
    let layer = performance_layer();
    let warning = layer.on_id_change(4, 5);
    assert_eq!(warning, "A span changed id, this is currently not supported");
}

#[test]
fn names_follow_the_template_for_large_ids() {
    let layer = performance_layer();
    let wide = span("wide", u64::MAX);
    let mut perf = Performance::new();
    layer.on_enter(&wide, &mut perf);
    expect_mark(&perf.entries[0], "wide [18446744073709551615]: span-enter", None);
}

#[test]
fn field_values_render_by_type() {
    let layer = performance_layer().with_details_from_fields(DefaultFieldFormatter);
    let mut typed = span("typed", 1);
    let fields = vec![
        Field { name: "s".to_string(), value: FieldValue::Str("hi".to_string()) },
        Field { name: "i".to_string(), value: FieldValue::Int(-3) },
        Field { name: "u".to_string(), value: FieldValue::UInt(10) },
        Field { name: "b".to_string(), value: FieldValue::Bool(true) },
        Field { name: "d".to_string(), value: FieldValue::Debug("Err(2)".to_string()) },
    ];
    let mut perf = Performance::new();
    layer.on_new_span(&mut typed, &fields);
    layer.on_enter(&typed, &mut perf);
    expect_mark(&perf.entries[0], "typed [1]: span-enter", Some("s=hi i=-3 u=10 b=true d=Err(2)"));
}

#[test]
fn smallest_int_renders_exactly() {
    let layer = performance_layer().with_details_from_fields(DefaultFieldFormatter);
    let mut edge = span("edge", 1);
    let mut perf = Performance::new();
    layer.on_new_span(&mut edge, &vec![int_field("n", i64::MIN)]);
    layer.on_enter(&edge, &mut perf);
    expect_mark(&perf.entries[0], "edge [1]: span-enter", Some("n=-9223372036854775808"));
}

#[test]
fn empty_record_leaves_detail_unchanged() {
    let layer = performance_layer().with_details_from_fields(DefaultFieldFormatter);
    let mut still = span("still", 6);
    let mut perf = Performance::new();
    layer.on_new_span(&mut still, &vec![int_field("a", 1)]);
    layer.on_record(&mut still, &vec![], &mut perf);
    expect_mark(&perf.entries[0], "still [6]: span-record", Some("a=1"));
}
