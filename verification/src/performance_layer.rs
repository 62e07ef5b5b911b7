//! The span-to-performance-timeline translation layer.

use vstd::prelude::*;
use crate::decimal::{append_dec, dec_str, lemma_dec_str_injective};
use crate::fields::{Field, FieldFormatter};
use crate::format_span::{FormatSpan, FormatSpanFromFields, SpanDetailStore};

verus! {

/// The detail text of an optional detail string.
pub open spec fn opt_text(o: Option<String>) -> Option<Seq<char>> {
    match o {
        Some(s) => Some(s@),
        None => None,
    }
}

/// The name under which an event of kind `kind` for the span named `name`
/// with id `id` appears on the timeline: `"{name} [{id}]: {kind}"`.
pub open spec fn spec_event_name(name: Seq<char>, id: u64, kind: Seq<char>) -> Seq<char> {
    name + " ["@ + dec_str(id as nat) + "]: "@ + kind
}

/// The naming scheme is collision-free: two events of the same kind, for
/// spans that share a name but have distinct ids, never collide on their
/// timeline name. Together with id uniqueness among live spans this keeps
/// every emitted mark and measure name unique per span and event kind.
pub proof fn lemma_event_names_unique(name: Seq<char>, kind: Seq<char>, id1: u64, id2: u64)
    requires
        id1 != id2,
    ensures
        spec_event_name(name, id1, kind) != spec_event_name(name, id2, kind),
{
    reveal_strlit(" [");
    reveal_strlit("]: ");
    let s1 = spec_event_name(name, id1, kind);
    let s2 = spec_event_name(name, id2, kind);
    let d1 = dec_str(id1 as nat);
    let d2 = dec_str(id2 as nat);
    if s1 == s2 {
        assert(" ["@.len() == 2);
        assert("]: "@.len() == 3);
        assert(s1.len() == name.len() + 2 + d1.len() + 3 + kind.len());
        assert(s2.len() == name.len() + 2 + d2.len() + 3 + kind.len());
        assert(d1.len() == d2.len());
        let lo = name.len() as int + 2;
        assert(d1 =~= s1.subrange(lo, lo + d1.len() as int));
        assert(d2 =~= s2.subrange(lo, lo + d2.len() as int));
        lemma_dec_str_injective(id1 as nat, id2 as nat);
    }
}

/// A live span as the layer sees it: its name, its id (unique among live
/// spans) and its exclusively owned detail slot.
#[derive(Debug)]
pub struct SpanData {
    /// The span's name.
    pub name: String,
    /// The span's numeric id.
    pub id: u64,
    /// The span's extension slot holding the rendered detail.
    pub extensions: SpanDetailStore,
}

/// A mark to be issued to the host timeline.
#[derive(Debug)]
pub struct MarkCommand {
    /// The mark's name.
    pub name: String,
    /// The detail attached to the mark, if any.
    pub detail: Option<String>,
}

/// The mathematical content of a [`MarkCommand`].
pub struct MarkV {
    /// The mark's name.
    pub name: Seq<char>,
    /// The detail attached to the mark, if any.
    pub detail: Option<Seq<char>>,
}

impl View for MarkCommand {
    type V = MarkV;

    open spec fn view(&self) -> MarkV {
        MarkV { name: self.name@, detail: opt_text(self.detail) }
    }
}

/// A measure to be issued to the host timeline, spanning two named marks.
#[derive(Debug)]
pub struct MeasureCommand {
    /// The measure's name.
    pub name: String,
    /// The name of the mark where the measure starts.
    pub start: String,
    /// The name of the mark where the measure ends.
    pub end: String,
    /// The detail attached to the measure, if any.
    pub detail: Option<String>,
}

/// The mathematical content of a [`MeasureCommand`].
pub struct MeasureV {
    /// The measure's name.
    pub name: Seq<char>,
    /// The name of the mark where the measure starts.
    pub start: Seq<char>,
    /// The name of the mark where the measure ends.
    pub end: Seq<char>,
    /// The detail attached to the measure, if any.
    pub detail: Option<Seq<char>>,
}

impl View for MeasureCommand {
    type V = MeasureV;

    open spec fn view(&self) -> MeasureV {
        MeasureV {
            name: self.name@,
            start: self.start@,
            end: self.end@,
            detail: opt_text(self.detail),
        }
    }
}

/// One entry written to the timeline.
#[derive(Debug)]
pub enum TimelineEntry {
    /// An instantaneous named mark.
    Mark {
        /// The mark's name.
        name: String,
        /// The detail attached to the mark, if any.
        detail: Option<String>,
    },
    /// A named duration between two existing marks.
    Measure {
        /// The measure's name.
        name: String,
        /// The name of the mark where the measure starts.
        start: String,
        /// The name of the mark where the measure ends.
        end: String,
        /// The detail attached to the measure, if any.
        detail: Option<String>,
    },
}

/// The mathematical content of a [`TimelineEntry`].
pub enum EntryV {
    /// An instantaneous named mark.
    Mark {
        /// The mark's name.
        name: Seq<char>,
        /// The detail attached to the mark, if any.
        detail: Option<Seq<char>>,
    },
    /// A named duration between two existing marks.
    Measure {
        /// The measure's name.
        name: Seq<char>,
        /// The name of the mark where the measure starts.
        start: Seq<char>,
        /// The name of the mark where the measure ends.
        end: Seq<char>,
        /// The detail attached to the measure, if any.
        detail: Option<Seq<char>>,
    },
}

impl View for TimelineEntry {
    type V = EntryV;

    open spec fn view(&self) -> EntryV {
        match self {
            TimelineEntry::Mark { name, detail } => EntryV::Mark {
                name: name@,
                detail: opt_text(*detail),
            },
            TimelineEntry::Measure { name, start, end, detail } => EntryV::Measure {
                name: name@,
                start: start@,
                end: end@,
                detail: opt_text(*detail),
            },
        }
    }
}

/// Whether `e` is a mark carrying the name `name`.
pub open spec fn is_mark_named(e: EntryV, name: Seq<char>) -> bool {
    e matches EntryV::Mark { name: n, .. } && n == name
}

/// Whether the timeline holds a mark named `name`.
pub open spec fn has_mark(entries: Seq<EntryV>, name: Seq<char>) -> bool {
    exists|i: int| 0 <= i < entries.len() && #[trigger] is_mark_named(entries[i], name)
}

/// The timeline sink the layer writes to. This is the model of the host's
/// performance object: marks always succeed, and a measure succeeds exactly
/// when both marks it refers to are already on the timeline. The host
/// bindings outside this crate behave the same way, except that any call may
/// additionally fail for host-side reasons; callers therefore never rely on
/// success (see [`measure_after_exit_mark`]).
#[derive(Debug)]
pub struct Performance {
    /// The entries written so far, in order.
    pub entries: Vec<TimelineEntry>,
}

impl View for Performance {
    type V = Seq<EntryV>;

    open spec fn view(&self) -> Seq<EntryV> {
        self.entries@.map_values(|e: TimelineEntry| e@)
    }
}

impl Performance {
    /// An empty timeline.
    pub fn new() -> (r: Performance)
        ensures
            r@ == Seq::<EntryV>::empty(),
    {
        let r = Performance { entries: Vec::new() };
        proof {
            assert(r@ =~= Seq::<EntryV>::empty());
        }
        r
    }

    /// Whether the timeline holds a mark named `name`.
    fn contains_mark(&self, name: &String) -> (r: bool)
        ensures
            r == has_mark(self@, name@),
    {
        let mut i: usize = 0;
        while i < self.entries.len()
            invariant
                i <= self.entries@.len(),
                self@.len() == self.entries@.len(),
                forall|j: int| 0 <= j < i ==> !#[trigger] is_mark_named(self@[j], name@),
            decreases self.entries@.len() - i,
        {
            proof {
                assert(self@[i as int] == self.entries@[i as int]@);
            }
            match &self.entries[i] {
                TimelineEntry::Mark { name: n, .. } => {
                    if *n == *name {
                        proof {
                            assert(is_mark_named(self@[i as int], name@));
                        }
                        return true;
                    }
                },
                TimelineEntry::Measure { .. } => {},
            }
            proof {
                assert(!is_mark_named(self@[i as int], name@));
            }
            i = i + 1;
        }
        false
    }

    /// Writes a plain mark.
    pub fn mark(&mut self, name: &str) -> (r: Result<(), ()>)
        ensures
            r is Ok,
            final(self)@ == old(self)@.push(EntryV::Mark { name: name@, detail: None }),
    {
        self.entries.push(TimelineEntry::Mark { name: name.to_owned(), detail: None });
        proof {
            assert(self@ =~= old(self)@.push(EntryV::Mark { name: name@, detail: None }));
        }
        Ok(())
    }

    /// Writes a mark carrying a detail string.
    pub fn mark_detailed(&mut self, name: &str, details: &str) -> (r: Result<(), ()>)
        ensures
            r is Ok,
            final(self)@ == old(self)@.push(
                EntryV::Mark { name: name@, detail: Some(details@) },
            ),
    {
        self.entries.push(
            TimelineEntry::Mark { name: name.to_owned(), detail: Some(details.to_owned()) },
        );
        proof {
            assert(self@ =~= old(self)@.push(EntryV::Mark { name: name@, detail: Some(details@) }));
        }
        Ok(())
    }

    /// Writes a plain measure between the marks named `start` and `end`;
    /// fails, leaving the timeline unchanged, when either mark is missing.
    pub fn measure(&mut self, name: &str, start: &str, end: &str) -> (r: Result<(), ()>)
        ensures
            ({
                let found = has_mark(old(self)@, start@) && has_mark(old(self)@, end@);
                &&& r is Ok <==> found
                &&& final(self)@ == if found {
                    old(self)@.push(
                        EntryV::Measure { name: name@, start: start@, end: end@, detail: None },
                    )
                } else {
                    old(self)@
                }
            }),
    {
        let start_s = start.to_owned();
        let end_s = end.to_owned();
        if self.contains_mark(&start_s) && self.contains_mark(&end_s) {
            self.entries.push(
                TimelineEntry::Measure {
                    name: name.to_owned(),
                    start: start_s,
                    end: end_s,
                    detail: None,
                },
            );
            proof {
                assert(self@ =~= old(self)@.push(
                    EntryV::Measure { name: name@, start: start@, end: end@, detail: None },
                ));
            }
            Ok(())
        } else {
            Err(())
        }
    }

    /// Writes a measure carrying a detail string between the marks named
    /// `start` and `end`; fails, leaving the timeline unchanged, when either
    /// mark is missing.
    pub fn measure_detailed(&mut self, name: &str, start: &str, end: &str, details: &str) -> (r:
        Result<(), ()>)
        ensures
            ({
                let found = has_mark(old(self)@, start@) && has_mark(old(self)@, end@);
                &&& r is Ok <==> found
                &&& final(self)@ == if found {
                    old(self)@.push(
                        EntryV::Measure {
                            name: name@,
                            start: start@,
                            end: end@,
                            detail: Some(details@),
                        },
                    )
                } else {
                    old(self)@
                }
            }),
    {
        let start_s = start.to_owned();
        let end_s = end.to_owned();
        if self.contains_mark(&start_s) && self.contains_mark(&end_s) {
            self.entries.push(
                TimelineEntry::Measure {
                    name: name.to_owned(),
                    start: start_s,
                    end: end_s,
                    detail: Some(details.to_owned()),
                },
            );
            proof {
                assert(self@ =~= old(self)@.push(
                    EntryV::Measure {
                        name: name@,
                        start: start@,
                        end: end@,
                        detail: Some(details@),
                    },
                ));
            }
            Ok(())
        } else {
            Err(())
        }
    }
}

/// A layer that translates span lifecycle callbacks into timeline marks and
/// measures, attaching details through a [`FormatSpan`] strategy.
#[derive(Debug)]
pub struct PerformanceEventsLayer<N> {
    fmt_details: N,
}

impl<N> PerformanceEventsLayer<N> {
    /// The detail strategy the layer was built with.
    pub closed spec fn spec_fmt(&self) -> N {
        self.fmt_details
    }

    /// Changes the way details are attached to performance events, rendering
    /// them from the recorded fields with the given formatter.
    pub fn with_details_from_fields<F: FieldFormatter>(self, fmt_fields: F) -> (l:
        PerformanceEventsLayer<FormatSpanFromFields<F>>)
        ensures
            l.spec_fmt().spec_inner() == fmt_fields,
    {
        self.with_details(FormatSpanFromFields::new(fmt_fields))
    }

    /// Changes the way details are attached to performance events.
    pub fn with_details<N2: FormatSpan>(self, fmt_details: N2) -> (l: PerformanceEventsLayer<N2>)
        ensures
            l.spec_fmt() == fmt_details,
    {
        PerformanceEventsLayer { fmt_details }
    }
}

/// Constructs a new layer recording performance events, attaching no
/// additional detail.
pub fn performance_layer() -> (l: PerformanceEventsLayer<()>)
    ensures
        l.spec_fmt() == (),
{
    PerformanceEventsLayer { fmt_details: () }
}

impl<N: FormatSpan> PerformanceEventsLayer<N> {
    /// Renders the timeline name for one of the span's events.
    fn template_name(span: &SpanData, event_name: &str) -> (r: String)
        ensures
            r@ == spec_event_name(span.name@, span.id, event_name@),
    {
        let mut out = span.name.clone();
        out.append(" [");
        append_dec(&mut out, span.id);
        out.append("]: ");
        out.append(event_name);
        proof {
            assert(out@ =~= spec_event_name(span.name@, span.id, event_name@));
        }
        out
    }

    /// The name of the span's enter mark.
    fn span_enter_name(&self, span: &SpanData) -> (r: String)
        ensures
            r@ == spec_event_name(span.name@, span.id, "span-enter"@),
    {
        Self::template_name(span, "span-enter")
    }

    /// The name of the span's exit mark.
    fn span_exit_name(&self, span: &SpanData) -> (r: String)
        ensures
            r@ == spec_event_name(span.name@, span.id, "span-exit"@),
    {
        Self::template_name(span, "span-exit")
    }

    /// The name of the span's record marks.
    fn span_record_name(&self, span: &SpanData) -> (r: String)
        ensures
            r@ == spec_event_name(span.name@, span.id, "span-record"@),
    {
        Self::template_name(span, "span-record")
    }

    /// The name of the span's measure.
    fn span_measure_name(&self, span: &SpanData) -> (r: String)
        ensures
            r@ == spec_event_name(span.name@, span.id, "span-measure"@),
    {
        Self::template_name(span, "span-measure")
    }

    /// Handles span creation: stores the initial detail rendering in the
    /// span's slot. No mark is emitted.
    pub fn on_new_span(&self, span: &mut SpanData, attrs: &Vec<Field>)
        ensures
            final(span).extensions@ == self.spec_fmt().spec_add(old(span).extensions@, attrs@),
            final(span).name == old(span).name,
            final(span).id == old(span).id,
    {
        self.fmt_details.add_details(&mut span.extensions, attrs);
    }

    /// Handles a record callback: merges the values into the span's detail
    /// slot, then writes one span-record mark carrying the detail now
    /// visible. The host's verdict on the mark is discarded.
    pub fn on_record(&self, span: &mut SpanData, values: &Vec<Field>, perf: &mut Performance)
        ensures
            final(span).extensions@ == self.spec_fmt().spec_record(
                old(span).extensions@,
                values@,
            ),
            final(span).name == old(span).name,
            final(span).id == old(span).id,
            final(perf)@ == old(perf)@.push(
                (EntryV::Mark {
                    name: spec_event_name(old(span).name@, old(span).id, "span-record"@),
                    detail: self.spec_fmt().spec_details(final(span).extensions@),
                }),
            ),
    {
        self.fmt_details.record_values(&mut span.extensions, values);
        let mark_name = self.span_record_name(span);
        let _ = match self.fmt_details.find_details(&span.extensions) {
            Some(details) => perf.mark_detailed(mark_name.as_str(), details.as_str()),
            None => perf.mark(mark_name.as_str()),
        };
    }

    /// Handles an enter callback: writes one span-enter mark carrying the
    /// detail currently visible. The host's verdict on the mark is
    /// discarded.
    pub fn on_enter(&self, span: &SpanData, perf: &mut Performance)
        ensures
            final(perf)@ == old(perf)@.push(
                (EntryV::Mark {
                    name: spec_event_name(span.name@, span.id, "span-enter"@),
                    detail: self.spec_fmt().spec_details(span.extensions@),
                }),
            ),
    {
        let mark_name = self.span_enter_name(span);
        let _ = match self.fmt_details.find_details(&span.extensions) {
            Some(details) => perf.mark_detailed(mark_name.as_str(), details.as_str()),
            None => perf.mark(mark_name.as_str()),
        };
    }

    /// Handles an exit callback: writes the span-exit mark and, only when
    /// that mark succeeded, the span-measure measure from the enter mark to
    /// the exit mark, both carrying the detail currently visible. Either
    /// call's failure is discarded independently.
    pub fn on_exit(&self, span: &SpanData, perf: &mut Performance)
        ensures
            ({
                let d = self.spec_fmt().spec_details(span.extensions@);
                let enter_n = spec_event_name(span.name@, span.id, "span-enter"@);
                let exit_n = spec_event_name(span.name@, span.id, "span-exit"@);
                let measure_n = spec_event_name(span.name@, span.id, "span-measure"@);
                let mid = old(perf)@.push((EntryV::Mark { name: exit_n, detail: d }));
                final(perf)@ == if has_mark(mid, enter_n) {
                    mid.push(
                        (EntryV::Measure {
                            name: measure_n,
                            start: enter_n,
                            end: exit_n,
                            detail: d,
                        }),
                    )
                } else {
                    mid
                }
            }),
    {
        let mark_enter_name = self.span_enter_name(span);
        let mark_exit_name = self.span_exit_name(span);
        let mark_measure_name = self.span_measure_name(span);
        match self.fmt_details.find_details(&span.extensions) {
            Some(details) => {
                let mark_ok = perf.mark_detailed(mark_exit_name.as_str(), details.as_str());
                proof {
                    assert(is_mark_named(perf@[perf@.len() - 1], mark_exit_name@));
                }
                if mark_ok.is_ok() {
                    let _ = perf.measure_detailed(
                        mark_measure_name.as_str(),
                        mark_enter_name.as_str(),
                        mark_exit_name.as_str(),
                        details.as_str(),
                    );
                }
            },
            None => {
                let mark_ok = perf.mark(mark_exit_name.as_str());
                proof {
                    assert(is_mark_named(perf@[perf@.len() - 1], mark_exit_name@));
                }
                if mark_ok.is_ok() {
                    let _ = perf.measure(
                        mark_measure_name.as_str(),
                        mark_enter_name.as_str(),
                        mark_exit_name.as_str(),
                    );
                }
            },
        }
    }

    /// Handles a span id change, which this layer does not support: no mark
    /// or measure results, only a warning to be shown on the host console.
    #[allow(unused_variables)]
    pub fn on_id_change(&self, old_id: u64, new_id: u64) -> (warning: String)
        ensures
            warning@ == "A span changed id, this is currently not supported"@,
    {
        "A span changed id, this is currently not supported".to_owned()
    }

    /// The mark to issue for an enter callback, for callers driving a host
    /// timeline of their own.
    pub fn enter_command(&self, span: &SpanData) -> (c: MarkCommand)
        ensures
            c@ == (MarkV {
                name: spec_event_name(span.name@, span.id, "span-enter"@),
                detail: self.spec_fmt().spec_details(span.extensions@),
            }),
    {
        MarkCommand {
            name: self.span_enter_name(span),
            detail: match self.fmt_details.find_details(&span.extensions) {
                Some(details) => Some(details.clone()),
                None => None,
            },
        }
    }

    /// Merges the recorded values into the span's detail slot and returns
    /// the span-record mark to issue, for callers driving a host timeline of
    /// their own.
    pub fn record_command(&self, span: &mut SpanData, values: &Vec<Field>) -> (c: MarkCommand)
        ensures
            final(span).extensions@ == self.spec_fmt().spec_record(
                old(span).extensions@,
                values@,
            ),
            final(span).name == old(span).name,
            final(span).id == old(span).id,
            c@ == (MarkV {
                name: spec_event_name(old(span).name@, old(span).id, "span-record"@),
                detail: self.spec_fmt().spec_details(final(span).extensions@),
            }),
    {
        self.fmt_details.record_values(&mut span.extensions, values);
        MarkCommand {
            name: self.span_record_name(span),
            detail: match self.fmt_details.find_details(&span.extensions) {
                Some(details) => Some(details.clone()),
                None => None,
            },
        }
    }

    /// The exit mark and the measure that may follow it, for callers driving
    /// a host timeline of their own. The measure must only be attempted when
    /// the exit mark succeeded; [`measure_after_exit_mark`] decides that.
    pub fn exit_commands(&self, span: &SpanData) -> (r: (MarkCommand, MeasureCommand))
        ensures
            r.0@ == (MarkV {
                name: spec_event_name(span.name@, span.id, "span-exit"@),
                detail: self.spec_fmt().spec_details(span.extensions@),
            }),
            r.1@ == (MeasureV {
                name: spec_event_name(span.name@, span.id, "span-measure"@),
                start: spec_event_name(span.name@, span.id, "span-enter"@),
                end: spec_event_name(span.name@, span.id, "span-exit"@),
                detail: self.spec_fmt().spec_details(span.extensions@),
            }),
    {
        let detail = match self.fmt_details.find_details(&span.extensions) {
            Some(details) => Some(details.clone()),
            None => None,
        };
        let second_detail = match &detail {
            Some(details) => Some(details.clone()),
            None => None,
        };
        let mark = MarkCommand { name: self.span_exit_name(span), detail };
        let measure = MeasureCommand {
            name: self.span_measure_name(span),
            start: self.span_enter_name(span),
            end: self.span_exit_name(span),
            detail: second_detail,
        };
        (mark, measure)
    }
}

/// Decides whether the measure of an exit may be attempted: exactly when the
/// exit mark was accepted by the host. A failed exit mark therefore never
/// leads to a measure attempt.
pub fn measure_after_exit_mark(measure: MeasureCommand, exit_mark_ok: bool) -> (r: Option<
    MeasureCommand,
>)
    ensures
        r == if exit_mark_ok {
            Some(measure)
        } else {
            None::<MeasureCommand>
        },
{
    if exit_mark_ok {
        Some(measure)
    } else {
        None
    }
}

} // verus!
