//! Severity levels for console routing.

use vstd::prelude::*;

verus! {

/// A severity level. The five canonical levels are ordered from most to
/// least verbose; `Custom` stands for any level outside that set and carries
/// the name under which it should be shown.
#[derive(Debug, PartialEq, Eq)]
pub enum Level {
    Trace,
    Debug,
    Info,
    Warn,
    Error,
    Custom(String),
}

impl Level {
    /// The text under which this level is shown in a log label.
    pub open spec fn spec_label(&self) -> Seq<char> {
        match self {
            Level::Trace => "TRACE"@,
            Level::Debug => "DEBUG"@,
            Level::Info => "INFO"@,
            Level::Warn => "WARN"@,
            Level::Error => "ERROR"@,
            Level::Custom(name) => name@,
        }
    }

    /// Renders the level's label text.
    pub fn label(&self) -> (r: String)
        ensures
            r@ == self.spec_label(),
    {
        match self {
            Level::Trace => "TRACE".to_owned(),
            Level::Debug => "DEBUG".to_owned(),
            Level::Info => "INFO".to_owned(),
            Level::Warn => "WARN".to_owned(),
            Level::Error => "ERROR".to_owned(),
            Level::Custom(name) => name.clone(),
        }
    }

    /// An exact copy of the level.
    pub fn dup(&self) -> (r: Level)
        ensures
            r == *self,
    {
        match self {
            Level::Trace => Level::Trace,
            Level::Debug => Level::Debug,
            Level::Info => Level::Info,
            Level::Warn => Level::Warn,
            Level::Error => Level::Error,
            Level::Custom(name) => Level::Custom(name.clone()),
        }
    }
}

} // verus!
