//! A verified core for a tracing-compatible observability sink on web hosts.
//!
//! Spans flowing through a subscriber are translated into named marks and
//! duration measures for the host's performance timeline, and formatted log
//! lines are routed to the severity-appropriate console method. This crate
//! holds the verified logic of that translation: the naming scheme, the
//! per-span detail bookkeeping, the level-to-method table and the buffered
//! console writer. The host bindings themselves (performance timeline,
//! console, subscriber registry) live outside this crate and consume the
//! values computed here.

pub mod console_writer;
pub mod decimal;
pub mod fields;
pub mod format_span;
pub mod level;
pub mod performance_layer;

pub use console_writer::{ConsoleCall, ConsoleMethod, ConsoleWriter, MakeConsoleWriter,
    MakeWebConsoleWriter};
pub use fields::{DefaultFieldFormatter, Field, FieldValue};
pub use format_span::{FormatSpan, FormatSpanFromFields, SpanDetailStore};
pub use level::Level;
pub use performance_layer::{performance_layer, measure_after_exit_mark, MarkCommand,
    MeasureCommand, Performance, PerformanceEventsLayer, SpanData, TimelineEntry};
