//! Source locations attached to parse errors.

use vstd::prelude::*;

verus! {

/// A position in the declaration source, as a one-based line and a
/// zero-based column, the way the host-language lexer reports it.
#[derive(Clone, Copy, PartialEq, Eq, Structural, Debug)]
pub struct Span {
    pub line: usize,
    pub column: usize,
}

impl Span {
    /// A placeholder position for errors that concern the whole input.
    pub fn start() -> (s: Span)
        ensures
            s == (Span { line: 1, column: 0 }),
    {
        Span { line: 1, column: 0 }
    }
}

} // verus!
