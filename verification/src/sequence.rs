//! Combinators applying parsers in sequence.
//!
//! Each combinator runs its components in order over the same evolving
//! cursor: every component starts on the remaining input its predecessor
//! left. The first failing component's outcome is forwarded unchanged and
//! nothing after it is run; outputs are kept or discarded per combinator,
//! but a discarded component still consumes its part of the input.

use vstd::prelude::*;

use crate::parser::IResult;
use crate::parser::InputLength;
use crate::parser::Parser;

verus! {

/// Runs `first`, then `second` on what `first` left, and yields both
/// outputs as a pair, in call order.
pub struct Pair<F, G> {
    /// The component run first.
    pub first: F,
    /// The component run second, on the input `first` left.
    pub second: G,
}

/// Gets an object from the first parser, then gets another object from the
/// second parser, and succeeds with the pair of both.
///
/// If `first` fails, its outcome is forwarded unchanged and `second` is
/// never run; if `second` fails, its outcome is forwarded unchanged.
pub fn pair<I: InputLength, E, F: Parser<I, E>, G: Parser<I, E>>(
    first: F,
    second: G,
) -> (p: Pair<F, G>)
    ensures
        p == (Pair { first, second }),
{
    Pair { first, second }
}

impl<I: InputLength, E, F: Parser<I, E>, G: Parser<I, E>> Parser<I, E> for Pair<F, G> {
    /// Both outputs, in call order.
    type Output = (F::Output, G::Output);

    /// Both components succeed, the second on what the first left.
    open spec fn succeeds(&self, i: I) -> bool {
        &&& self.first.succeeds(i)
        &&& self.second.succeeds(self.first.remaining(i))
    }

    /// Whatever the second component leaves.
    open spec fn remaining(&self, i: I) -> I {
        self.second.remaining(self.first.remaining(i))
    }

    /// Both outputs, in call order.
    open spec fn produces(&self, i: I, o: (F::Output, G::Output)) -> bool {
        &&& self.first.produces(i, o.0)
        &&& self.second.produces(self.first.remaining(i), o.1)
    }

    /// The first failing component's outcome, unchanged.
    open spec fn failure(&self, i: I) -> crate::error::ParseErr<E> {
        if !self.first.succeeds(i) {
            self.first.failure(i)
        } else {
            self.second.failure(self.first.remaining(i))
        }
    }

    /// Fail-fast: when the first component fails, the second is never run.
    open spec fn untouched_on_failure(&self, post: Self, i: I) -> bool {
        !self.first.succeeds(i) ==> post.second == self.second
    }

    proof fn remaining_no_longer(&self, i: I) {
        self.first.remaining_no_longer(i);
        self.second.remaining_no_longer(self.first.remaining(i));
    }

    fn parse(&mut self, i: I) -> (r: IResult<I, (F::Output, G::Output), E>) {
        match self.first.parse(i) {
            Err(e) => Err(e),
            Ok((mid, o1)) => match self.second.parse(mid) {
                Err(e) => Err(e),
                Ok((rest, o2)) => Ok((rest, (o1, o2))),
            },
        }
    }
}

/// Runs `first` and discards its output, then yields what `second` produces
/// on the input `first` left.
pub struct Preceded<F, G> {
    /// The component whose output is discarded.
    pub first: F,
    /// The component whose output is kept.
    pub second: G,
}

/// Matches an object from the first parser and discards it, then gets an
/// object from the second parser.
///
/// `first` still consumes its part of the input even though its output is
/// dropped. The first failing component's outcome is forwarded unchanged.
pub fn preceded<I: InputLength, E, F: Parser<I, E>, G: Parser<I, E>>(
    first: F,
    second: G,
) -> (p: Preceded<F, G>)
    ensures
        p == (Preceded { first, second }),
{
    Preceded { first, second }
}

impl<I: InputLength, E, F: Parser<I, E>, G: Parser<I, E>> Parser<I, E> for Preceded<F, G> {
    /// The second component's output alone.
    type Output = G::Output;

    /// Both components succeed, the second on what the first left.
    open spec fn succeeds(&self, i: I) -> bool {
        &&& self.first.succeeds(i)
        &&& self.second.succeeds(self.first.remaining(i))
    }

    /// Whatever the second component leaves.
    open spec fn remaining(&self, i: I) -> I {
        self.second.remaining(self.first.remaining(i))
    }

    /// The second component's output alone.
    open spec fn produces(&self, i: I, o: G::Output) -> bool {
        self.second.produces(self.first.remaining(i), o)
    }

    /// The first failing component's outcome, unchanged.
    open spec fn failure(&self, i: I) -> crate::error::ParseErr<E> {
        if !self.first.succeeds(i) {
            self.first.failure(i)
        } else {
            self.second.failure(self.first.remaining(i))
        }
    }

    /// Fail-fast: when the first component fails, the second is never run.
    open spec fn untouched_on_failure(&self, post: Self, i: I) -> bool {
        !self.first.succeeds(i) ==> post.second == self.second
    }

    proof fn remaining_no_longer(&self, i: I) {
        self.first.remaining_no_longer(i);
        self.second.remaining_no_longer(self.first.remaining(i));
    }

    fn parse(&mut self, i: I) -> (r: IResult<I, G::Output, E>) {
        match self.first.parse(i) {
            Err(e) => Err(e),
            Ok((mid, _)) => self.second.parse(mid),
        }
    }
}

/// Runs `first` and keeps its output, then runs `second` only for its
/// consuming and validating effect.
pub struct Terminated<F, G> {
    /// The component whose output is kept.
    pub first: F,
    /// The component whose output is discarded.
    pub second: G,
}

/// Gets an object from the first parser, then matches an object from the
/// second parser and discards it.
///
/// If `second` fails, the whole combinator fails even though `first`
/// already succeeded: no partial success is ever returned.
pub fn terminated<I: InputLength, E, F: Parser<I, E>, G: Parser<I, E>>(
    first: F,
    second: G,
) -> (p: Terminated<F, G>)
    ensures
        p == (Terminated { first, second }),
{
    Terminated { first, second }
}

impl<I: InputLength, E, F: Parser<I, E>, G: Parser<I, E>> Parser<I, E> for Terminated<F, G> {
    /// The first component's output alone.
    type Output = F::Output;

    /// Both components succeed, the second on what the first left.
    open spec fn succeeds(&self, i: I) -> bool {
        &&& self.first.succeeds(i)
        &&& self.second.succeeds(self.first.remaining(i))
    }

    /// Whatever the second component leaves.
    open spec fn remaining(&self, i: I) -> I {
        self.second.remaining(self.first.remaining(i))
    }

    /// The first component's output alone.
    open spec fn produces(&self, i: I, o: F::Output) -> bool {
        self.first.produces(i, o)
    }

    /// The first failing component's outcome, unchanged.
    open spec fn failure(&self, i: I) -> crate::error::ParseErr<E> {
        if !self.first.succeeds(i) {
            self.first.failure(i)
        } else {
            self.second.failure(self.first.remaining(i))
        }
    }

    /// Fail-fast: when the first component fails, the second is never run.
    open spec fn untouched_on_failure(&self, post: Self, i: I) -> bool {
        !self.first.succeeds(i) ==> post.second == self.second
    }

    proof fn remaining_no_longer(&self, i: I) {
        self.first.remaining_no_longer(i);
        self.second.remaining_no_longer(self.first.remaining(i));
    }

    fn parse(&mut self, i: I) -> (r: IResult<I, F::Output, E>) {
        match self.first.parse(i) {
            Err(e) => Err(e),
            Ok((mid, o1)) => match self.second.parse(mid) {
                Err(e) => Err(e),
                Ok((rest, _)) => Ok((rest, o1)),
            },
        }
    }
}

/// Runs `first`, a discarded separator, then `second`, and yields the outer
/// two outputs as a pair.
pub struct SeparatedPair<F, G, H> {
    /// The component whose output is the pair's first element.
    pub first: F,
    /// The separator between them, run for consumption only.
    pub sep: G,
    /// The component whose output is the pair's second element.
    pub second: H,
}

/// Gets an object from the first parser, then matches an object from the
/// separator and discards it, then gets another object from the second
/// parser.
///
/// The three components run in order; the first of them to fail has its
/// outcome forwarded unchanged and stops the sequence there.
pub fn separated_pair<I: InputLength, E, F: Parser<I, E>, G: Parser<I, E>, H: Parser<I, E>>(first: F, sep: G, second: H) -> (p: SeparatedPair<F, G, H>)
    ensures
        p == (SeparatedPair { first, sep, second }),
{
    SeparatedPair { first, sep, second }
}

impl<I: InputLength, E, F: Parser<I, E>, G: Parser<I, E>, H: Parser<I, E>> Parser<
    I,
    E,
> for SeparatedPair<F, G, H> {
    /// The outer two outputs, in call order.
    type Output = (F::Output, H::Output);

    /// All three components succeed, each on what its predecessor left.
    open spec fn succeeds(&self, i: I) -> bool {
        let i1 = self.first.remaining(i);
        let i2 = self.sep.remaining(i1);
        &&& self.first.succeeds(i)
        &&& self.sep.succeeds(i1)
        &&& self.second.succeeds(i2)
    }

    /// Whatever the last component leaves.
    open spec fn remaining(&self, i: I) -> I {
        self.second.remaining(self.sep.remaining(self.first.remaining(i)))
    }

    /// The outer two outputs, in call order; the separator's is dropped.
    open spec fn produces(&self, i: I, o: (F::Output, H::Output)) -> bool {
        let i1 = self.first.remaining(i);
        let i2 = self.sep.remaining(i1);
        &&& self.first.produces(i, o.0)
        &&& self.second.produces(i2, o.1)
    }

    /// The first failing component's outcome, unchanged.
    open spec fn failure(&self, i: I) -> crate::error::ParseErr<E> {
        let i1 = self.first.remaining(i);
        let i2 = self.sep.remaining(i1);
        if !self.first.succeeds(i) {
            self.first.failure(i)
        } else if !self.sep.succeeds(i1) {
            self.sep.failure(i1)
        } else {
            self.second.failure(i2)
        }
    }

    /// Fail-fast: components after the first failing one are never run.
    open spec fn untouched_on_failure(&self, post: Self, i: I) -> bool {
        let i1 = self.first.remaining(i);
        &&& !self.first.succeeds(i) ==> post.sep == self.sep && post.second == self.second
        &&& self.first.succeeds(i) && !self.sep.succeeds(i1) ==> post.second == self.second
    }

    proof fn remaining_no_longer(&self, i: I) {
        self.first.remaining_no_longer(i);
        self.sep.remaining_no_longer(self.first.remaining(i));
        self.second.remaining_no_longer(self.sep.remaining(self.first.remaining(i)));
    }

    fn parse(&mut self, i: I) -> (r: IResult<I, (F::Output, H::Output), E>) {
        match self.first.parse(i) {
            Err(e) => Err(e),
            Ok((i1, o1)) => match self.sep.parse(i1) {
                Err(e) => Err(e),
                Ok((i2, _)) => match self.second.parse(i2) {
                    Err(e) => Err(e),
                    Ok((rest, o3)) => Ok((rest, (o1, o3))),
                },
            },
        }
    }
}

/// Runs a discarded opener, then `second` whose output is kept, then a
/// discarded closer.
pub struct Delimited<F, G, H> {
    /// The opening component, run for consumption only.
    pub first: F,
    /// The component whose output is kept.
    pub second: G,
    /// The closing component, run for consumption only.
    pub third: H,
}

/// Matches an object from the first parser and discards it, then gets an
/// object from the second parser, and finally matches an object from the
/// third parser and discards it.
///
/// This is the composition of [`preceded`] and [`terminated`]: all three
/// components must succeed in order, and the first failure is forwarded
/// unchanged.
pub fn delimited<I: InputLength, E, F: Parser<I, E>, G: Parser<I, E>, H: Parser<I, E>>(first: F, second: G, third: H) -> (p: Delimited<F, G, H>)
    ensures
        p == (Delimited { first, second, third }),
{
    Delimited { first, second, third }
}

impl<I: InputLength, E, F: Parser<I, E>, G: Parser<I, E>, H: Parser<I, E>> Parser<
    I,
    E,
> for Delimited<F, G, H> {
    /// The middle component's output alone.
    type Output = G::Output;

    /// All three components succeed, each on what its predecessor left.
    open spec fn succeeds(&self, i: I) -> bool {
        let i1 = self.first.remaining(i);
        let i2 = self.second.remaining(i1);
        &&& self.first.succeeds(i)
        &&& self.second.succeeds(i1)
        &&& self.third.succeeds(i2)
    }

    /// Whatever the closing component leaves.
    open spec fn remaining(&self, i: I) -> I {
        self.third.remaining(self.second.remaining(self.first.remaining(i)))
    }

    /// The middle component's output alone.
    open spec fn produces(&self, i: I, o: G::Output) -> bool {
        self.second.produces(self.first.remaining(i), o)
    }

    /// The first failing component's outcome, unchanged.
    open spec fn failure(&self, i: I) -> crate::error::ParseErr<E> {
        let i1 = self.first.remaining(i);
        let i2 = self.second.remaining(i1);
        if !self.first.succeeds(i) {
            self.first.failure(i)
        } else if !self.second.succeeds(i1) {
            self.second.failure(i1)
        } else {
            self.third.failure(i2)
        }
    }

    /// Fail-fast: components after the first failing one are never run.
    open spec fn untouched_on_failure(&self, post: Self, i: I) -> bool {
        let i1 = self.first.remaining(i);
        &&& !self.first.succeeds(i) ==> post.second == self.second && post.third == self.third
        &&& self.first.succeeds(i) && !self.second.succeeds(i1) ==> post.third == self.third
    }

    proof fn remaining_no_longer(&self, i: I) {
        self.first.remaining_no_longer(i);
        self.second.remaining_no_longer(self.first.remaining(i));
        self.third.remaining_no_longer(self.second.remaining(self.first.remaining(i)));
    }

    fn parse(&mut self, i: I) -> (r: IResult<I, G::Output, E>) {
        match self.first.parse(i) {
            Err(e) => Err(e),
            Ok((i1, _)) => match self.second.parse(i1) {
                Err(e) => Err(e),
                Ok((i2, o2)) => match self.third.parse(i2) {
                    Err(e) => Err(e),
                    Ok((rest, _)) => Ok((rest, o2)),
                },
            },
        }
    }
}

} // verus!
