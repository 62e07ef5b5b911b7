use tracing_web::console_writer::{select_dispatcher, DispatchStyle};
use tracing_web::{ConsoleCall, ConsoleMethod, Level, MakeConsoleWriter, MakeWebConsoleWriter};

#[test]
fn level_method_table_matches() {
    let cases = vec![
        (Level::Trace, ConsoleMethod::Debug),
        (Level::Debug, ConsoleMethod::Debug),
        (Level::Info, ConsoleMethod::Info),
        (Level::Warn, ConsoleMethod::Warn),
        (Level::Error, ConsoleMethod::Error),
        (Level::Custom("NOTICE".to_string()), ConsoleMethod::Log),
    ];
    for (level, method) in cases {
        assert_eq!(select_dispatcher(false, &level).method, method);
        assert_eq!(select_dispatcher(true, &level).method, method);
    }
}

#[test]
fn partial_writes_flush_once_as_whole() {
    let maker = MakeWebConsoleWriter::new();
    let mut writer = maker.make_writer_for(&Level::Info);
    assert_eq!(writer.write(b"ab"), 2);
    assert_eq!(writer.write(b"cd"), 2);
    assert!(writer.flush().is_ok());
    match writer.finish() {
        ConsoleCall::Plain { method, message } => {
            assert_eq!(method, ConsoleMethod::Info);
            assert_eq!(message, "abcd");
        },
        ConsoleCall::Styled { .. } => panic!("a plain writer must flush a plain call"),
    }
}

#[test]
fn invalid_bytes_decode_lossily() {
    let maker = MakeWebConsoleWriter::new();
    let mut writer = maker.make_writer_for(&Level::Warn);
    writer.write(b"a\xffb");
    match writer.finish() {
        ConsoleCall::Plain { method, message } => {
            assert_eq!(method, ConsoleMethod::Warn);
            assert_eq!(message, "a\u{fffd}b");
        },
        ConsoleCall::Styled { .. } => panic!("a plain writer must flush a plain call"),
    }
}

#[test]
fn pretty_canonical_label_is_baked_into_format() {
    let maker = MakeWebConsoleWriter::new().with_pretty_level();
    let mut writer = maker.make_writer_for(&Level::Error);
    writer.write(b"boom");
    match writer.finish() {
        ConsoleCall::Styled { method, format, label_style, label, message_style, message } => {
            assert_eq!(method, ConsoleMethod::Error);
            assert_eq!(format, "%cERROR%c %s");
            assert_eq!(
                label_style,
                "color: white; font-weight: bold; padding: 0 3px; background: #CC0000;"
            );
            assert!(label.is_none());
            assert_eq!(message_style, "background: inherit; color: inherit;");
            assert_eq!(message, "boom");
        },
        ConsoleCall::Plain { .. } => panic!("a pretty writer must flush a styled call"),
    }
}

#[test]
fn pretty_custom_level_gets_neutral_label() {
    let maker = MakeWebConsoleWriter::new().with_pretty_level();
    let mut writer = maker.make_writer_for(&Level::Custom("NOTICE".to_string()));
    writer.write(b"hello");
    match writer.finish() {
        ConsoleCall::Styled { method, format, label_style, label, message_style, message } => {
            assert_eq!(method, ConsoleMethod::Log);
            assert_eq!(format, "%c%s%c %s");
            assert_eq!(label_style, "");
            assert_eq!(label.as_deref(), Some("NOTICE"));
            assert_eq!(message_style, "");
            assert_eq!(message, "hello");
        },
        ConsoleCall::Plain { .. } => panic!("a pretty writer must flush a styled call"),
    }
}

#[test]
fn writer_without_level_falls_back_to_log() {
    let maker = MakeWebConsoleWriter::new();
    let mut writer = maker.make_writer();
    writer.write(b"free");
    match writer.finish() {
        ConsoleCall::Plain { method, message } => {
            assert_eq!(method, ConsoleMethod::Log);
            assert_eq!(message, "free");
        },
        ConsoleCall::Styled { .. } => panic!("a plain writer must flush a plain call"),
    }
}

#[test]
fn pretty_writer_without_level_labels_as_trace() {
    let maker = MakeWebConsoleWriter::default().with_pretty_level();
    let mut writer = maker.make_writer();
    writer.write(b"free");
    match writer.finish() {
        ConsoleCall::Styled { method, format, label, .. } => {
            assert_eq!(method, ConsoleMethod::Log);
            assert_eq!(format, "%c%s%c %s");
            assert_eq!(label.as_deref(), Some("TRACE"));
        },
        ConsoleCall::Plain { .. } => panic!("a pretty writer must flush a styled call"),
    }
}

#[test]
fn legacy_maker_upgrades_to_plain_writers() {
    let maker = MakeConsoleWriter;
    assert_eq!(
        select_dispatcher(false, &Level::Trace).method,
        ConsoleMethod::Debug,
    );
    let mut writer = maker.make_writer_for(&Level::Trace);
    writer.write(b"x");
    match writer.finish() {
        ConsoleCall::Plain { method, message } => {
            assert_eq!(method, ConsoleMethod::Debug);
            assert_eq!(message, "x");
        },
        ConsoleCall::Styled { .. } => panic!("the legacy maker never styles"),
    }
}

#[test]
fn pretty_styles_cover_all_canonical_levels() {
    let swatches = vec![
        (Level::Trace, "%cTRACE%c %s", "#75507B"),
        (Level::Debug, "%cDEBUG%c %s", "#3465A4"),
        (Level::Info, "%cINFO%c %s", "#4E9A06"),
        (Level::Warn, "%cWARN%c %s", "#C4A000"),
        (Level::Error, "%cERROR%c %s", "#CC0000"),
    ];
    for (level, want_format, want_swatch) in swatches {
        match select_dispatcher(true, &level).style {
            DispatchStyle::PrettyCanonical { format, label_style } => {
                assert_eq!(format, want_format);
                assert!(label_style.contains(want_swatch));
            },
            _ => panic!("canonical levels get a coloured label"),
        }
    }
}
