//! The failure half of a parse outcome.

use vstd::prelude::*;

verus! {

/// How much more input a streaming parser needs before it can decide.
#[derive(Debug, PartialEq, Eq, Clone, Copy)]
pub enum Needed {
    /// More input is needed, but the amount is unknown.
    Unknown,
    /// At least this many more elements are needed.
    Size(usize),
}

/// A failed parse, tagged by how a caller may react to it.
///
/// Sequencing combinators never build, wrap or change one of these: they
/// forward the first failing component's value unchanged.
#[derive(Debug, PartialEq, Eq, Clone, Copy)]
pub enum ParseErr<E> {
    /// More input is required before the parser can decide.
    Incomplete(Needed),
    /// A recoverable error: an alternation layer above may try another
    /// branch from the cursor it saved before the call.
    Error(E),
    /// An unrecoverable failure that must propagate past any alternation
    /// layer unchanged.
    Failure(E),
}

} // verus!
