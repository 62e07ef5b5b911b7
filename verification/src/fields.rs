//! Recorded span fields and the capability that renders them to text.

use vstd::prelude::*;
use crate::decimal::{append_dec, dec_str};

verus! {

/// A typed value recorded for a span field.
#[derive(Debug)]
pub enum FieldValue {
    /// A string value.
    Str(String),
    /// A signed integer value.
    Int(i64),
    /// An unsigned integer value.
    UInt(u64),
    /// A boolean value.
    Bool(bool),
    /// A value already rendered through its debug representation.
    Debug(String),
}

/// A single recorded key/value pair.
#[derive(Debug)]
pub struct Field {
    /// The field's name.
    pub name: String,
    /// The field's value.
    pub value: FieldValue,
}

/// The text of a signed integer value.
pub open spec fn int_text(i: int) -> Seq<char> {
    if i < 0 {
        seq!['-'] + dec_str((-i) as nat)
    } else {
        dec_str(i as nat)
    }
}

/// The text a value is rendered to.
pub open spec fn value_text(v: FieldValue) -> Seq<char> {
    match v {
        FieldValue::Str(s) => s@,
        FieldValue::Int(i) => int_text(i as int),
        FieldValue::UInt(u) => dec_str(u as nat),
        FieldValue::Bool(b) => if b {
            "true"@
        } else {
            "false"@
        },
        FieldValue::Debug(s) => s@,
    }
}

/// The text a single field is rendered to: `name=value`.
pub open spec fn field_text(f: Field) -> Seq<char> {
    f.name@ + "="@ + value_text(f.value)
}

/// The text a sequence of fields is rendered to, separated by single spaces.
pub open spec fn fields_text(fs: Seq<Field>) -> Seq<char>
    decreases fs.len(),
{
    if fs.len() == 0 {
        Seq::empty()
    } else if fs.len() == 1 {
        field_text(fs[0])
    } else {
        fields_text(fs.drop_last()) + " "@ + field_text(fs.last())
    }
}

/// Appends the rendering of `v` to `out`.
fn append_value(out: &mut String, v: &FieldValue)
    ensures
        final(out)@ == old(out)@ + value_text(*v),
{
    match v {
        FieldValue::Str(s) => {
            out.append(s.as_str());
        },
        FieldValue::Int(i) => {
            if *i < 0 {
                out.append("-");
                let m: u64 = (-(*i as i128)) as u64;
                append_dec(out, m);
                proof {
                    reveal_strlit("-");
                    assert("-"@ =~= seq!['-']);
                    assert(out@ =~= old(out)@ + value_text(*v));
                }
            } else {
                append_dec(out, *i as u64);
            }
        },
        FieldValue::UInt(u) => {
            append_dec(out, *u);
        },
        FieldValue::Bool(b) => {
            if *b {
                out.append("true");
            } else {
                out.append("false");
            }
        },
        FieldValue::Debug(s) => {
            out.append(s.as_str());
        },
    }
}

/// Appends the rendering of `f` to `out`.
fn append_field(out: &mut String, f: &Field)
    ensures
        final(out)@ == old(out)@ + field_text(*f),
{
    out.append(f.name.as_str());
    out.append("=");
    append_value(out, &f.value);
    proof {
        assert(out@ =~= old(out)@ + field_text(*f));
    }
}

/// Renders a sequence of fields as space-separated `name=value` pairs.
pub fn render_fields(fields: &Vec<Field>) -> (r: String)
    ensures
        r@ == fields_text(fields@),
{
    let mut out = String::new();
    let mut i: usize = 0;
    while i < fields.len()
        invariant
            i <= fields.len(),
            out@ == fields_text(fields@.take(i as int)),
        decreases fields.len() - i,
    {
        if i > 0 {
            out.append(" ");
        }
        append_field(&mut out, &fields[i]);
        proof {
            let taken = fields@.take(i as int + 1);
            assert(taken.drop_last() =~= fields@.take(i as int));
            assert(taken.last() == fields@[i as int]);
            assert(out@ =~= fields_text(taken));
        }
        i = i + 1;
    }
    proof {
        assert(fields@.take(fields@.len() as int) =~= fields@);
    }
    out
}

/// An error while rendering span fields to text.
#[derive(Debug)]
pub struct FormatError;

/// The merge of freshly recorded fields into an already rendered detail
/// string: the new fields are appended after a single space, so the existing
/// text is extended, never replaced.
pub open spec fn merged_text(current: Seq<char>, fs: Seq<Field>) -> Seq<char> {
    if fs.len() == 0 {
        current
    } else if current.len() == 0 {
        fields_text(fs)
    } else {
        current + " "@ + fields_text(fs)
    }
}

/// The detail text after several record calls have been merged, in arrival
/// order, into an existing detail text: each call's rendered fields are
/// appended after a single space.
pub open spec fn spec_appended_records(initial: Seq<char>, recs: Seq<Seq<Field>>) -> Seq<char>
    decreases recs.len(),
{
    if recs.len() == 0 {
        initial
    } else {
        spec_appended_records(initial, recs.drop_last()) + " "@ + fields_text(recs.last())
    }
}

/// A capability that renders recorded fields to a detail string. The
/// enclosing framework lets its users supply their own formatter, so the
/// contract states only what every formatter must guarantee: merging extends
/// the existing text instead of replacing it.
pub trait FieldFormatter: Sized {
    /// What the formatter produces for a fresh set of fields, or `None` when
    /// it fails.
    spec fn spec_format(&self, fs: Seq<Field>) -> Option<Seq<char>>;

    /// What the formatter produces when merging new fields into an existing
    /// rendering, or `None` when it fails.
    spec fn spec_merge(&self, current: Seq<char>, fs: Seq<Field>) -> Option<Seq<char>>;

    /// A successful merge keeps the existing text as a prefix.
    proof fn merge_extends(&self, current: Seq<char>, fs: Seq<Field>)
        ensures
            self.spec_merge(current, fs) matches Some(m) ==> m.len() >= current.len()
                && m.subrange(0, current.len() as int) == current,
    ;

    /// Renders a fresh set of fields.
    fn format_fields(&self, fields: &Vec<Field>) -> (r: Result<String, FormatError>)
        ensures
            match r {
                Ok(s) => self.spec_format(fields@) == Some(s@),
                Err(_) => self.spec_format(fields@) is None,
            },
    ;

    /// Merges newly recorded fields into an existing rendering. On failure
    /// the existing text is left unchanged.
    fn add_fields(&self, current: &mut String, fields: &Vec<Field>) -> (r: Result<(), FormatError>)
        ensures
            match r {
                Ok(_) => self.spec_merge(old(current)@, fields@) == Some(final(current)@),
                Err(_) => final(current)@ == old(current)@ && self.spec_merge(
                    old(current)@,
                    fields@,
                ) is None,
            },
    ;
}

/// The built-in formatter: `name=value` pairs separated by single spaces,
/// merged by appending after a space. It never fails.
#[derive(Debug)]
pub struct DefaultFieldFormatter;

impl FieldFormatter for DefaultFieldFormatter {
    open spec fn spec_format(&self, fs: Seq<Field>) -> Option<Seq<char>> {
        Some(fields_text(fs))
    }

    open spec fn spec_merge(&self, current: Seq<char>, fs: Seq<Field>) -> Option<Seq<char>> {
        Some(merged_text(current, fs))
    }

    proof fn merge_extends(&self, current: Seq<char>, fs: Seq<Field>) {
        let m = merged_text(current, fs);
        if fs.len() == 0 {
            assert(m.subrange(0, current.len() as int) =~= current);
        } else if current.len() == 0 {
            assert(m.subrange(0, current.len() as int) =~= current);
        } else {
            assert(m.subrange(0, current.len() as int) =~= current);
        }
    }

    fn format_fields(&self, fields: &Vec<Field>) -> (r: Result<String, FormatError>) {
        Ok(render_fields(fields))
    }

    fn add_fields(&self, current: &mut String, fields: &Vec<Field>) -> (r: Result<(), FormatError>) {
        if fields.len() == 0 {
            return Ok(());
        }
        if !current.as_str().is_empty() {
            current.append(" ");
        }
        let rendered = render_fields(fields);
        current.append(rendered.as_str());
        proof {
            assert(current@ =~= merged_text(old(current)@, fields@));
        }
        Ok(())
    }
}

} // verus!
