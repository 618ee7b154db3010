//! Per-parse options threaded through every parser.

use vstd::prelude::*;

verus! {

/// Tunable, parser-agnostic options for a single parse.
///
/// The default is the flood-resistant shape: high-volume tables aggregate per
/// entity instead of emitting one event per row.
#[derive(Debug, Clone)]
#[non_exhaustive]
pub struct ParseOptions {
    /// Emit full per-row events for high-volume tables instead of an
    /// aggregate-per-entity summary. `false` by default.
    pub verbose_rows: bool,
}

impl Default for ParseOptions {
    /// The default options: aggregate summaries, no per-row events.
    fn default() -> (o: Self)
        ensures
            o.verbose_rows == false,
    {
        ParseOptions { verbose_rows: false }
    }
}

impl ParseOptions {
    /// Builder: set `verbose_rows`, leaving every other option as it was.
    pub fn with_verbose_rows(self, verbose_rows: bool) -> (o: Self)
        ensures
            o == (ParseOptions { verbose_rows, ..self }),
    {
        let mut o = self;
        o.verbose_rows = verbose_rows;
        o
    }
}

} // verus!
