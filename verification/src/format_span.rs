//! The per-span detail slot and the strategies that fill it.

use vstd::prelude::*;
use crate::fields::{
    fields_text,
    merged_text,
    spec_appended_records,
    DefaultFieldFormatter,
    Field,
    FieldFormatter,
};

verus! {

/// The per-span slot holding at most one rendered detail string. It lives
/// exactly as long as the owning span and is only ever written through a
/// [`FormatSpan`] strategy.
#[derive(Debug)]
pub struct SpanDetailStore {
    details: Option<String>,
}

impl View for SpanDetailStore {
    type V = Option<Seq<char>>;

    closed spec fn view(&self) -> Option<Seq<char>> {
        match self.details {
            Some(s) => Some(s@),
            None => None,
        }
    }
}

impl SpanDetailStore {
    /// A fresh, empty slot.
    pub fn empty() -> (r: SpanDetailStore)
        ensures
            r@ is None,
    {
        SpanDetailStore { details: None }
    }
}

/// Decides what detail text, if any, accompanies a span's performance
/// events. The enclosing framework lets its users supply their own strategy,
/// so the contract states only what every strategy must guarantee: reading
/// is pure, and recording merges into the stored text, never replaces it.
pub trait FormatSpan: Sized {
    /// The detail visible for a span whose slot holds `stored`.
    spec fn spec_details(&self, stored: Option<Seq<char>>) -> Option<Seq<char>>;

    /// The slot's content after the initial fields are added at creation.
    spec fn spec_add(&self, stored: Option<Seq<char>>, attrs: Seq<Field>) -> Option<Seq<char>>;

    /// The slot's content after newly recorded fields are merged in.
    spec fn spec_record(&self, stored: Option<Seq<char>>, values: Seq<Field>) -> Option<Seq<char>>;

    /// Reads the detail for the span, without changing anything.
    fn find_details<'a>(&self, store: &'a SpanDetailStore) -> (r: Option<&'a String>)
        ensures
            match r {
                Some(s) => self.spec_details(store@) == Some(s@),
                None => self.spec_details(store@) is None,
            },
    ;

    /// Called once, when the span is created, with its initial fields.
    fn add_details(&self, store: &mut SpanDetailStore, attrs: &Vec<Field>)
        ensures
            final(store)@ == self.spec_add(old(store)@, attrs@),
    ;

    /// Called whenever the span records further values. Whatever text the
    /// slot already holds is kept as a prefix of the new text.
    fn record_values(&self, store: &mut SpanDetailStore, values: &Vec<Field>)
        ensures
            final(store)@ == self.spec_record(old(store)@, values@),
            old(store)@ matches Some(d) ==> final(store)@ matches Some(m) && m.len() >= d.len()
                && m.subrange(0, d.len() as int) == d,
    ;
}

impl FormatSpan for () {
    /// No detail is ever visible.
    open spec fn spec_details(&self, stored: Option<Seq<char>>) -> Option<Seq<char>> {
        None
    }

    /// The slot is left untouched.
    open spec fn spec_add(&self, stored: Option<Seq<char>>, attrs: Seq<Field>) -> Option<
        Seq<char>,
    > {
        stored
    }

    /// The slot is left untouched.
    open spec fn spec_record(&self, stored: Option<Seq<char>>, values: Seq<Field>) -> Option<
        Seq<char>,
    > {
        stored
    }

    #[allow(unused_variables)]
    fn find_details<'a>(&self, store: &'a SpanDetailStore) -> (r: Option<&'a String>) {
        None
    }

    #[allow(unused_variables)]
    fn add_details(&self, store: &mut SpanDetailStore, attrs: &Vec<Field>) {
    }

    #[allow(unused_variables)]
    fn record_values(&self, store: &mut SpanDetailStore, values: &Vec<Field>) {
    }
}

/// A [`FormatSpan`] strategy that renders the recorded fields through a
/// [`FieldFormatter`]. The detail string is materialized lazily on the first
/// add or record call; later records are merged into it by the formatter
/// rather than reformatted from scratch. A formatting failure leaves the
/// slot as it was.
#[derive(Debug)]
pub struct FormatSpanFromFields<N> {
    inner: N,
}

impl<N: FieldFormatter> FormatSpanFromFields<N> {
    /// Wraps a field formatter.
    pub fn new(inner: N) -> (r: FormatSpanFromFields<N>)
        ensures
            r.spec_inner() == inner,
    {
        FormatSpanFromFields { inner }
    }

    /// The wrapped field formatter.
    pub closed spec fn spec_inner(&self) -> N {
        self.inner
    }

    /// Renders `fields` into the slot if it is still empty; does nothing
    /// otherwise, and nothing on a formatting failure.
    fn add_formatted_fields(&self, store: &mut SpanDetailStore, fields: &Vec<Field>)
        ensures
            final(store)@ == spec_fill(self.spec_inner(), old(store)@, fields@),
    {
        if store.details.is_none() {
            match self.inner.format_fields(fields) {
                Ok(rendered) => {
                    store.details = Some(rendered);
                },
                Err(_) => {
                },
            }
        }
    }
}

/// The slot's content after rendering `fields` into it, when it was holding
/// `stored`: an empty slot is filled with the fresh rendering (left empty if
/// the formatter fails), a filled slot is left as it is.
pub open spec fn spec_fill<N: FieldFormatter>(
    fmt: N,
    stored: Option<Seq<char>>,
    fields: Seq<Field>,
) -> Option<Seq<char>> {
    match stored {
        Some(d) => Some(d),
        None => fmt.spec_format(fields),
    }
}

/// The slot's content after `values` are recorded: merged into the existing
/// text when there is one (kept unchanged if the merge fails), rendered
/// fresh otherwise.
pub open spec fn spec_record_fields<N: FieldFormatter>(
    fmt: N,
    stored: Option<Seq<char>>,
    values: Seq<Field>,
) -> Option<Seq<char>> {
    match stored {
        Some(d) => match fmt.spec_merge(d, values) {
            Some(m) => Some(m),
            None => Some(d),
        },
        None => fmt.spec_format(values),
    }
}

/// The slot's content after a whole sequence of record calls, applied in
/// arrival order: what iterating [`FormatSpan::spec_record`] of a
/// [`FormatSpanFromFields`] strategy over `recs` leaves in the slot.
pub open spec fn spec_record_all<N: FieldFormatter>(
    fmt: N,
    stored: Option<Seq<char>>,
    recs: Seq<Seq<Field>>,
) -> Option<Seq<char>>
    decreases recs.len(),
{
    if recs.len() == 0 {
        stored
    } else {
        spec_record_fields(fmt, spec_record_all(fmt, stored, recs.drop_last()), recs.last())
    }
}

/// Record calls merge in arrival order: a span whose slot holds some detail
/// text and which then records any number of non-empty field sets ends up
/// with that text followed by each set's rendering, in the order recorded.
/// Since the detail shown on a later mark is exactly the slot's content,
/// this is the detail visible on a mark emitted after those records.
pub proof fn lemma_records_merge_in_order(
    fmt: DefaultFieldFormatter,
    initial: Seq<char>,
    recs: Seq<Seq<Field>>,
)
    requires
        initial.len() > 0,
        forall|i: int| 0 <= i < recs.len() ==> recs[i].len() > 0,
    ensures
        spec_record_all(fmt, Some(initial), recs) == Some(spec_appended_records(initial, recs)),
        spec_appended_records(initial, recs).len() >= initial.len(),
    decreases recs.len(),
{
    if recs.len() > 0 {
        lemma_records_merge_in_order(fmt, initial, recs.drop_last());
        let prev = spec_appended_records(initial, recs.drop_last());
        assert(spec_record_fields(fmt, Some(prev), recs.last()) == Some(
            merged_text(prev, recs.last()),
        ));
        assert(merged_text(prev, recs.last()) == prev + " "@ + fields_text(recs.last()));
    }
}

impl<N: FieldFormatter> FormatSpan for FormatSpanFromFields<N> {
    /// The detail is exactly what the slot holds.
    open spec fn spec_details(&self, stored: Option<Seq<char>>) -> Option<Seq<char>> {
        stored
    }

    open spec fn spec_add(&self, stored: Option<Seq<char>>, attrs: Seq<Field>) -> Option<
        Seq<char>,
    > {
        spec_fill(self.spec_inner(), stored, attrs)
    }

    open spec fn spec_record(&self, stored: Option<Seq<char>>, values: Seq<Field>) -> Option<
        Seq<char>,
    > {
        spec_record_fields(self.spec_inner(), stored, values)
    }

    fn find_details<'a>(&self, store: &'a SpanDetailStore) -> (r: Option<&'a String>) {
        match &store.details {
            Some(s) => Some(s),
            None => None,
        }
    }

    fn add_details(&self, store: &mut SpanDetailStore, attrs: &Vec<Field>) {
        self.add_formatted_fields(store, attrs);
    }

    fn record_values(&self, store: &mut SpanDetailStore, values: &Vec<Field>) {
        match &mut store.details {
            Some(existing) => {
                let _ = self.inner.add_fields(existing, values);
                proof {
                    self.inner.merge_extends(old(store)@->Some_0, values@);
                }
            },
            None => {
                self.add_formatted_fields(store, values);
            },
        }
    }
}

} // verus!
