//! Routing of buffered log lines to the host console.

use vstd::prelude::*;
use crate::level::Level;

verus! {

/// The console method a message is dispatched to.
#[derive(Clone, Copy, Debug, PartialEq, Eq, Structural)]
pub enum ConsoleMethod {
    /// The console's debug method.
    Debug,
    /// The console's info method.
    Info,
    /// The console's warn method.
    Warn,
    /// The console's error method.
    Error,
    /// The console's generic log method, the fallback for levels outside
    /// the five canonical ones.
    Log,
}

/// The console method used for each level: debug for TRACE and DEBUG, the
/// same-named method for INFO, WARN and ERROR, and the generic log method
/// for anything else.
pub open spec fn method_for(level: Level) -> ConsoleMethod {
    match level {
        Level::Trace => ConsoleMethod::Debug,
        Level::Debug => ConsoleMethod::Debug,
        Level::Info => ConsoleMethod::Info,
        Level::Warn => ConsoleMethod::Warn,
        Level::Error => ConsoleMethod::Error,
        Level::Custom(_) => ConsoleMethod::Log,
    }
}

/// The styled format string used for each canonical level's pretty label,
/// and the label-as-argument form for custom levels.
pub open spec fn spec_format_for(level: Level) -> Seq<char> {
    match level {
        Level::Trace => "%cTRACE%c %s"@,
        Level::Debug => "%cDEBUG%c %s"@,
        Level::Info => "%cINFO%c %s"@,
        Level::Warn => "%cWARN%c %s"@,
        Level::Error => "%cERROR%c %s"@,
        Level::Custom(_) => "%c%s%c %s"@,
    }
}

/// The style applied to each canonical level's pretty label (one fixed
/// colour swatch per level), and the neutral style for custom levels.
pub open spec fn spec_label_style_for(level: Level) -> Seq<char> {
    match level {
        Level::Trace => "color: white; font-weight: bold; padding: 0 3px; background: #75507B;"@,
        Level::Debug => "color: white; font-weight: bold; padding: 0 3px; background: #3465A4;"@,
        Level::Info => "color: white; font-weight: bold; padding: 0 3px; background: #4E9A06;"@,
        Level::Warn => "color: white; font-weight: bold; padding: 0 3px; background: #C4A000;"@,
        Level::Error => "color: white; font-weight: bold; padding: 0 3px; background: #CC0000;"@,
        Level::Custom(_) => ""@,
    }
}

/// How a flushed message is rendered.
#[derive(Debug)]
pub enum DispatchStyle {
    /// The message alone is handed to the console method.
    Simple,
    /// The message is prefixed with a coloured level label baked into the
    /// format string.
    PrettyCanonical {
        /// The format string, holding the label between style markers.
        format: String,
        /// The style applied to the label.
        label_style: String,
    },
    /// The message is prefixed with an uncoloured label passed as its own
    /// argument: the fallback for levels without a canonical label.
    PrettyFallback,
}

/// The console method and rendering chosen for a writer.
#[derive(Debug)]
pub struct Dispatch {
    /// The console method the message goes to.
    pub method: ConsoleMethod,
    /// How the message is rendered.
    pub style: DispatchStyle,
}

/// Whether `d` is the dispatch that `select_dispatcher` owes for `level`
/// with the given label prettiness.
pub open spec fn spec_dispatch_for(d: Dispatch, pretty: bool, level: Level) -> bool {
    &&& d.method == method_for(level)
    &&& if !pretty {
        d.style is Simple
    } else {
        match level {
            Level::Custom(_) => d.style is PrettyFallback,
            _ => d.style matches DispatchStyle::PrettyCanonical { format, label_style }
                && format@ == spec_format_for(level) && label_style@ == spec_label_style_for(
                level,
            ),
        }
    }
}

/// Chooses console method and rendering for a level: the method follows the
/// level table, and pretty rendering carries the level's coloured label for
/// the five canonical levels or falls back to a neutral label otherwise.
pub fn select_dispatcher(pretty: bool, level: &Level) -> (d: Dispatch)
    ensures
        spec_dispatch_for(d, pretty, *level),
{
    let method = match level {
        Level::Trace => ConsoleMethod::Debug,
        Level::Debug => ConsoleMethod::Debug,
        Level::Info => ConsoleMethod::Info,
        Level::Warn => ConsoleMethod::Warn,
        Level::Error => ConsoleMethod::Error,
        Level::Custom(_) => ConsoleMethod::Log,
    };
    if !pretty {
        return Dispatch { method, style: DispatchStyle::Simple };
    }
    let style = match level {
        Level::Trace => DispatchStyle::PrettyCanonical {
            format: "%cTRACE%c %s".to_owned(),
            label_style:
                "color: white; font-weight: bold; padding: 0 3px; background: #75507B;".to_owned(),
        },
        Level::Debug => DispatchStyle::PrettyCanonical {
            format: "%cDEBUG%c %s".to_owned(),
            label_style:
                "color: white; font-weight: bold; padding: 0 3px; background: #3465A4;".to_owned(),
        },
        Level::Info => DispatchStyle::PrettyCanonical {
            format: "%cINFO%c %s".to_owned(),
            label_style:
                "color: white; font-weight: bold; padding: 0 3px; background: #4E9A06;".to_owned(),
        },
        Level::Warn => DispatchStyle::PrettyCanonical {
            format: "%cWARN%c %s".to_owned(),
            label_style:
                "color: white; font-weight: bold; padding: 0 3px; background: #C4A000;".to_owned(),
        },
        Level::Error => DispatchStyle::PrettyCanonical {
            format: "%cERROR%c %s".to_owned(),
            label_style:
                "color: white; font-weight: bold; padding: 0 3px; background: #CC0000;".to_owned(),
        },
        Level::Custom(_) => DispatchStyle::PrettyFallback,
    };
    Dispatch { method, style }
}

/// The characters that a byte buffer decodes to, as the host console will
/// show them.
pub uninterp spec fn utf8_lossy(bytes: Seq<u8>) -> Seq<char>;

/// Relies on String::from_utf8_lossy: decodes the bytes as UTF-8, putting
/// the replacement character for invalid sequences; the result depends on
/// the bytes alone.
#[verifier::external_body]
fn lossy_string(bytes: &[u8]) -> (r: String)
    ensures
        r@ == utf8_lossy(bytes@),
{
    String::from_utf8_lossy(bytes).into_owned()
}

/// One fully rendered console invocation, ready to be performed by a host
/// binding.
#[derive(Debug)]
pub enum ConsoleCall {
    /// The message is the method's only argument.
    Plain {
        /// The console method to invoke.
        method: ConsoleMethod,
        /// The decoded message.
        message: String,
    },
    /// The method receives a format string with inline style markers, the
    /// styles, an optional label argument, and the message.
    Styled {
        /// The console method to invoke.
        method: ConsoleMethod,
        /// The format string.
        format: String,
        /// The style for the level label.
        label_style: String,
        /// The label argument, for formats that take the label separately.
        label: Option<String>,
        /// The style for the message after the label.
        message_style: String,
        /// The decoded message.
        message: String,
    },
}

/// A buffered writer for one log message. Bytes accumulate over any number
/// of partial writes; turning the writer into its console call decodes them
/// once. Because that step consumes the writer, each writer flushes at most
/// once; the host binding that owns the writer performs the call on scope
/// exit, on every path, so each message is flushed exactly once.
#[derive(Debug)]
pub struct ConsoleWriter {
    buffer: Vec<u8>,
    level: Level,
    dispatch: Dispatch,
}

impl ConsoleWriter {
    /// The bytes accumulated so far.
    pub closed spec fn spec_buffer(&self) -> Seq<u8> {
        self.buffer@
    }

    /// The level the writer was made for.
    pub closed spec fn spec_level(&self) -> Level {
        self.level
    }

    /// The dispatch chosen when the writer was made.
    pub closed spec fn spec_dispatch(&self) -> Dispatch {
        self.dispatch
    }

    /// Appends a chunk of bytes to the buffered message and reports the
    /// whole chunk as consumed.
    pub fn write(&mut self, buf: &[u8]) -> (n: usize)
        ensures
            final(self).spec_buffer() == old(self).spec_buffer() + buf@,
            final(self).spec_level() == old(self).spec_level(),
            final(self).spec_dispatch() == old(self).spec_dispatch(),
            n == buf@.len(),
    {
        self.buffer.extend_from_slice(buf);
        buf.len()
    }

    /// Does nothing: the message is dispatched only when the writer is
    /// finished, so that it reaches the console as a single call.
    pub fn flush(&mut self) -> (r: Result<(), ()>)
        ensures
            r is Ok,
            *final(self) == *old(self),
    {
        Ok(())
    }

    /// Decodes the accumulated bytes and renders the single console call
    /// for them, consuming the writer.
    pub fn finish(self) -> (call: ConsoleCall)
        ensures
            ({
                let text = utf8_lossy(self.spec_buffer());
                match call {
                    ConsoleCall::Plain { method, message } => {
                        &&& self.spec_dispatch().style is Simple
                        &&& method == self.spec_dispatch().method
                        &&& message@ == text
                    },
                    ConsoleCall::Styled {
                        method,
                        format,
                        label_style,
                        label,
                        message_style,
                        message,
                    } => {
                        &&& method == self.spec_dispatch().method
                        &&& message@ == text
                        &&& match self.spec_dispatch().style {
                            DispatchStyle::Simple => false,
                            DispatchStyle::PrettyCanonical { format: f, label_style: ls } => {
                                &&& format@ == f@
                                &&& label_style@ == ls@
                                &&& label is None
                                &&& message_style@ == "background: inherit; color: inherit;"@
                            },
                            DispatchStyle::PrettyFallback => {
                                &&& format@ == "%c%s%c %s"@
                                &&& label_style@ == ""@
                                &&& label matches Some(l) && l@ == self.spec_level().spec_label()
                                &&& message_style@ == ""@
                            },
                        }
                    },
                }
            }),
    {
        let ConsoleWriter { buffer, level, dispatch } = self;
        let Dispatch { method, style } = dispatch;
        let message = lossy_string(buffer.as_slice());
        match style {
            DispatchStyle::Simple => ConsoleCall::Plain { method, message },
            DispatchStyle::PrettyCanonical { format, label_style } => ConsoleCall::Styled {
                method,
                format,
                label_style,
                label: None,
                message_style: "background: inherit; color: inherit;".to_owned(),
                message,
            },
            DispatchStyle::PrettyFallback => ConsoleCall::Styled {
                method,
                format: "%c%s%c %s".to_owned(),
                label_style: "".to_owned(),
                label: Some(level.label()),
                message_style: "".to_owned(),
                message,
            },
        }
    }
}

/// A maker of console writers that never annotates messages with a level
/// label. Kept for compatibility; `MakeWebConsoleWriter` supersedes it.
#[derive(Debug)]
pub struct MakeConsoleWriter;

/// A maker of console writers: one writer per log message, dispatching to
/// the console method that matches the message's level, optionally with a
/// coloured level label.
#[derive(Debug)]
pub struct MakeWebConsoleWriter {
    use_pretty_label: bool,
}

impl MakeWebConsoleWriter {
    /// Whether writers prefix messages with a pretty level label.
    pub closed spec fn spec_pretty(&self) -> bool {
        self.use_pretty_label
    }

    /// Creates a maker whose writers show no level label.
    pub fn new() -> (r: MakeWebConsoleWriter)
        ensures
            !r.spec_pretty(),
    {
        MakeWebConsoleWriter { use_pretty_label: false }
    }

    /// Enables a coloured label for the message's level.
    pub fn with_pretty_level(self) -> (r: MakeWebConsoleWriter)
        ensures
            r.spec_pretty(),
    {
        MakeWebConsoleWriter { use_pretty_label: true }
    }

    /// Makes a writer for a message of unknown level: it is treated as the
    /// most verbose level and dispatched through the generic fallback.
    pub fn make_writer(&self) -> (w: ConsoleWriter)
        ensures
            w.spec_buffer() == Seq::<u8>::empty(),
            w.spec_level() == Level::Trace,
            w.spec_dispatch().method == ConsoleMethod::Log,
            !self.spec_pretty() ==> w.spec_dispatch().style is Simple,
            self.spec_pretty() ==> w.spec_dispatch().style is PrettyFallback,
    {
        ConsoleWriter {
            buffer: Vec::new(),
            level: Level::Trace,
            dispatch: Dispatch {
                method: ConsoleMethod::Log,
                style: if self.use_pretty_label {
                    DispatchStyle::PrettyFallback
                } else {
                    DispatchStyle::Simple
                },
            },
        }
    }

    /// Makes a writer for one message of the given level, with method and
    /// rendering selected for that level.
    pub fn make_writer_for(&self, level: &Level) -> (w: ConsoleWriter)
        ensures
            w.spec_buffer() == Seq::<u8>::empty(),
            w.spec_level() == *level,
            spec_dispatch_for(w.spec_dispatch(), self.spec_pretty(), *level),
    {
        let dispatch = select_dispatcher(self.use_pretty_label, level);
        ConsoleWriter { buffer: Vec::new(), level: level.dup(), dispatch }
    }
}

impl Default for MakeWebConsoleWriter {
    /// The default maker shows no level label.
    fn default() -> (r: Self)
        ensures
            !r.spec_pretty(),
    {
        Self::new()
    }
}

impl MakeConsoleWriter {
    /// The equivalent label-free `MakeWebConsoleWriter`, to share one code
    /// path between the two makers.
    pub fn upgrade(&self) -> (r: MakeWebConsoleWriter)
        ensures
            !r.spec_pretty(),
    {
        MakeWebConsoleWriter { use_pretty_label: false }
    }

    /// Makes a writer for a message of unknown level; see
    /// [`MakeWebConsoleWriter::make_writer`].
    pub fn make_writer(&self) -> (w: ConsoleWriter)
        ensures
            w.spec_buffer() == Seq::<u8>::empty(),
            w.spec_level() == Level::Trace,
            w.spec_dispatch().method == ConsoleMethod::Log,
            w.spec_dispatch().style is Simple,
    {
        self.upgrade().make_writer()
    }

    /// Makes a writer for one message of the given level; see
    /// [`MakeWebConsoleWriter::make_writer_for`].
    pub fn make_writer_for(&self, level: &Level) -> (w: ConsoleWriter)
        ensures
            w.spec_buffer() == Seq::<u8>::empty(),
            w.spec_level() == *level,
            spec_dispatch_for(w.spec_dispatch(), false, *level),
    {
        self.upgrade().make_writer_for(level)
    }
}

} // verus!
