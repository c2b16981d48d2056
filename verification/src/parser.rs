//! The parser capability: the one contract every combinator composes.

use vstd::prelude::*;

use crate::error::ParseErr;

verus! {

/// The outcome of one parser invocation: on success the remaining input and
/// the output, in that order; otherwise the failure, forwarded unchanged by
/// every sequencing combinator.
pub type IResult<I, O, E> = Result<(I, O), ParseErr<E>>;

/// An input cursor with a measure of how much is left to consume.
pub trait InputLength {
    /// The number of unconsumed elements behind this cursor.
    spec fn length(&self) -> nat;
}

/// A parser over inputs `I` with error context `E`, yielding values of the
/// associated `Output` type.
///
/// The spec functions below fix the parser's behaviour as a function of its
/// current state and the input alone: `parse` must succeed exactly on the
/// inputs where `succeeds` holds, hand back `remaining` and an output
/// satisfying `produces`, and on any other input report `failure` while
/// leaving alone whatever `untouched_on_failure` promises. Backtracking
/// callers rely on this purity when they retry from a saved cursor value;
/// the sequencing layer assumes it of every component but cannot enforce it.
pub trait Parser<I: InputLength, E>: Sized {
    /// The semantic value this parser yields on success.
    type Output;

    /// Whether this parser succeeds on input `i`.
    spec fn succeeds(&self, i: I) -> bool;

    /// The remaining input handed back on success: always a suffix of `i`,
    /// never invented data.
    spec fn remaining(&self, i: I) -> I;

    /// Which semantic values the parser may produce on input `i`. Each
    /// implementation states this as tightly as its output type allows; a
    /// combinator's outputs are exactly its components' outputs, in call
    /// order.
    spec fn produces(&self, i: I, o: Self::Output) -> bool;

    /// The outcome reported when `succeeds(i)` does not hold.
    spec fn failure(&self, i: I) -> ParseErr<E>;

    /// What a failing invocation on `i` leaves untouched in the parser's
    /// state. Sequencing combinators promise here that the components after
    /// the first failing one are never run: their state is kept as it was.
    spec fn untouched_on_failure(&self, post: Self, i: I) -> bool;

    /// A parser consumes from the input it was given: the remaining cursor
    /// is never longer than the one passed in.
    proof fn remaining_no_longer(&self, i: I)
        ensures
            self.succeeds(i) ==> self.remaining(i).length() <= i.length(),
    ;

    /// Run the parser once on `i`.
    fn parse(&mut self, i: I) -> (r: IResult<I, Self::Output, E>)
        ensures
            old(self).succeeds(i) ==> (r matches Ok(p) && p.0 == old(self).remaining(i)
                && old(self).produces(i, p.1)),
            !old(self).succeeds(i) ==> r == Err::<(I, Self::Output), ParseErr<E>>(
                old(self).failure(i),
            ),
            !old(self).succeeds(i) ==> old(self).untouched_on_failure(*final(self), i),
    ;
}

} // verus!
