//! The n-ary tuple-sequencing mechanism.
//!
//! A tuple of parsers, one position per component, runs its components in
//! index order over the same evolving cursor and yields the product tuple
//! of their outputs, position-stable: position `i` always holds the `i`-th
//! parser's output. The first failing component's outcome is forwarded
//! unchanged and the components after it are never run. The empty tuple is
//! the identity for sequencing: it succeeds on any input, consumes nothing
//! and produces the empty product. Each arity needs its own implementation
//! because each has a product type of its own shape; compositions of
//! [`pair`](crate::sequence::pair) can always be nested to go beyond the
//! largest arity written out here.

use vstd::prelude::*;

use crate::error::Needed;
use crate::error::ParseErr;
use crate::parser::IResult;
use crate::parser::InputLength;
use crate::parser::Parser;

verus! {

/// Helper trait for the [`tuple`] combinator.
///
/// This trait is implemented for tuples of parsers of up to 21 elements:
/// its spec functions mirror [`Parser`]'s, and [`Tuple::parse`] carries the
/// same contract.
pub trait Tuple<I: InputLength, E>: Sized {
    /// The product of the component outputs, in position order.
    type Output;

    /// Whether every component succeeds, each on what its predecessor left.
    spec fn succeeds(&self, i: I) -> bool;

    /// What the last component leaves.
    spec fn remaining(&self, i: I) -> I;

    /// Whether `o` holds, position by position, an output each component
    /// may produce on the cursor its predecessor left.
    spec fn produces(&self, i: I, o: Self::Output) -> bool;

    /// The first failing component's outcome, unchanged.
    spec fn failure(&self, i: I) -> ParseErr<E>;

    /// Fail-fast: the components after the first failing one are never
    /// run, so their state is kept as it was.
    spec fn untouched_on_failure(&self, post: Self, i: I) -> bool;

    /// The sequence consumes from the input it was given: the remaining
    /// cursor is never longer than the one passed in.
    proof fn remaining_no_longer(&self, i: I)
        ensures
            self.succeeds(i) ==> self.remaining(i).length() <= i.length(),
    ;

    /// Parses the input and returns a tuple of results of each parser.
    fn parse(&mut self, i: I) -> (r: IResult<I, Self::Output, E>)
        ensures
            old(self).succeeds(i) ==> (r matches Ok(p) && p.0 == old(self).remaining(i)
                && old(self).produces(i, p.1)),
            !old(self).succeeds(i) ==> r == Err::<(I, Self::Output), ParseErr<E>>(
                old(self).failure(i),
            ),
            !old(self).succeeds(i) ==> old(self).untouched_on_failure(*final(self), i),
    ;
}

/// The empty sequence: the identity for sequencing. It succeeds on any
/// input, consumes nothing and produces the empty product; it can come up
/// in compositions built over a variable number of parsers.
impl<I: InputLength, E> Tuple<I, E> for () {
    type Output = ();

    /// Always.
    open spec fn succeeds(&self, i: I) -> bool {
        true
    }

    /// The input, untouched.
    open spec fn remaining(&self, i: I) -> I {
        i
    }

    /// The empty product.
    open spec fn produces(&self, i: I, o: ()) -> bool {
        true
    }

    /// Never reported; an arbitrary fixed value keeps the function total.
    open spec fn failure(&self, i: I) -> ParseErr<E> {
        ParseErr::Incomplete(Needed::Unknown)
    }

    /// There is no failing run.
    open spec fn untouched_on_failure(&self, post: Self, i: I) -> bool {
        true
    }

    proof fn remaining_no_longer(&self, i: I) {
    }

    fn parse(&mut self, i: I) -> (r: IResult<I, (), E>) {
        Ok((i, ()))
    }
}

/// Runs the single parser and yields its output as a 1-tuple.
impl<I: InputLength, E, FnA: Parser<I, E>> Tuple<I, E> for (FnA,) {
    type Output = (FnA::Output,);

    /// Every component succeeds, each on what its predecessor left.
    open spec fn succeeds(&self, i: I) -> bool {
        self.0.succeeds(i)
    }

    /// What the last component leaves.
    open spec fn remaining(&self, i: I) -> I {
        self.0.remaining(i)
    }

    /// Position `k` holds an output of parser `k`, run on the cursor
    /// left by parser `k - 1`.
    open spec fn produces(&self, i: I, o: (FnA::Output,)) -> bool {
        self.0.produces(i, o.0)
    }

    /// The first failing component's outcome, unchanged.
    open spec fn failure(&self, i: I) -> ParseErr<E> {
        self.0.failure(i)
    }

    /// Fail-fast: when component `k` is the first to fail, the
    /// components after position `k` are never run.
    open spec fn untouched_on_failure(&self, post: Self, i: I) -> bool {
        true
    }

    proof fn remaining_no_longer(&self, i: I) {
        self.0.remaining_no_longer(i);
    }

    fn parse(&mut self, i: I) -> (r: IResult<I, (FnA::Output,), E>) {
        match self.0.parse(i) {
            Err(e) => Err(e),
            Ok((i1, o0)) => Ok((i1, (o0,))),
        }
    }
}

/// Runs the 2 parsers in index order, each on what its predecessor
/// left, and yields their outputs as a 2-tuple.
impl<I: InputLength, E, FnA: Parser<I, E>, FnB: Parser<I, E>> Tuple<I, E> for (FnA, FnB) {
    type Output = (FnA::Output, FnB::Output);

    /// Every component succeeds, each on what its predecessor left.
    open spec fn succeeds(&self, i: I) -> bool {
        let i1 = self.0.remaining(i);
        &&& self.0.succeeds(i)
        &&& self.1.succeeds(i1)
    }

    /// What the last component leaves.
    open spec fn remaining(&self, i: I) -> I {
        let i1 = self.0.remaining(i);
        self.1.remaining(i1)
    }

    /// Position `k` holds an output of parser `k`, run on the cursor
    /// left by parser `k - 1`.
    open spec fn produces(&self, i: I, o: (FnA::Output, FnB::Output)) -> bool {
        let i1 = self.0.remaining(i);
        &&& self.0.produces(i, o.0)
        &&& self.1.produces(i1, o.1)
    }

    /// The first failing component's outcome, unchanged.
    open spec fn failure(&self, i: I) -> ParseErr<E> {
        let i1 = self.0.remaining(i);
        if !self.0.succeeds(i) {
            self.0.failure(i)
        } else {
            self.1.failure(i1)
        }
    }

    /// Fail-fast: when component `k` is the first to fail, the
    /// components after position `k` are never run.
    open spec fn untouched_on_failure(&self, post: Self, i: I) -> bool {
        &&& !self.0.succeeds(i) ==> post.1 == self.1
    }

    proof fn remaining_no_longer(&self, i: I) {
        self.0.remaining_no_longer(i);
        let i1 = self.0.remaining(i);
        self.1.remaining_no_longer(i1);
    }

    fn parse(&mut self, i: I) -> (r: IResult<I, (FnA::Output, FnB::Output), E>) {
        match self.0.parse(i) {
            Err(e) => Err(e),
            Ok((i1, o0)) => {
                match self.1.parse(i1) {
                    Err(e) => Err(e),
                    Ok((i2, o1)) => Ok((i2, (o0, o1))),
                }
            },
        }
    }
}

/// Runs the 3 parsers in index order, each on what its predecessor
/// left, and yields their outputs as a 3-tuple.
impl<I: InputLength, E, FnA: Parser<I, E>, FnB: Parser<I, E>, FnC: Parser<I, E>> Tuple<I, E> for (FnA, FnB, FnC) {
    type Output = (FnA::Output, FnB::Output, FnC::Output);

    /// Every component succeeds, each on what its predecessor left.
    open spec fn succeeds(&self, i: I) -> bool {
        let i1 = self.0.remaining(i);
        let i2 = self.1.remaining(i1);
        &&& self.0.succeeds(i)
        &&& self.1.succeeds(i1)
        &&& self.2.succeeds(i2)
    }

    /// What the last component leaves.
    open spec fn remaining(&self, i: I) -> I {
        let i1 = self.0.remaining(i);
        let i2 = self.1.remaining(i1);
        self.2.remaining(i2)
    }

    /// Position `k` holds an output of parser `k`, run on the cursor
    /// left by parser `k - 1`.
    open spec fn produces(&self, i: I, o: (FnA::Output, FnB::Output, FnC::Output)) -> bool {
        let i1 = self.0.remaining(i);
        let i2 = self.1.remaining(i1);
        &&& self.0.produces(i, o.0)
        &&& self.1.produces(i1, o.1)
        &&& self.2.produces(i2, o.2)
    }

    /// The first failing component's outcome, unchanged.
    open spec fn failure(&self, i: I) -> ParseErr<E> {
        let i1 = self.0.remaining(i);
        let i2 = self.1.remaining(i1);
        if !self.0.succeeds(i) {
            self.0.failure(i)
        } else if !self.1.succeeds(i1) {
            self.1.failure(i1)
        } else {
            self.2.failure(i2)
        }
    }

    /// Fail-fast: when component `k` is the first to fail, the
    /// components after position `k` are never run.
    open spec fn untouched_on_failure(&self, post: Self, i: I) -> bool {
        let i1 = self.0.remaining(i);
        &&& !self.0.succeeds(i) ==> post.1 == self.1 && post.2 == self.2
        &&& self.0.succeeds(i) && !self.1.succeeds(i1) ==> post.2 == self.2
    }

    proof fn remaining_no_longer(&self, i: I) {
        self.0.remaining_no_longer(i);
        let i1 = self.0.remaining(i);
        self.1.remaining_no_longer(i1);
        let i2 = self.1.remaining(i1);
        self.2.remaining_no_longer(i2);
    }

    fn parse(&mut self, i: I) -> (r: IResult<I, (FnA::Output, FnB::Output, FnC::Output), E>) {
        match self.0.parse(i) {
            Err(e) => Err(e),
            Ok((i1, o0)) => {
                match self.1.parse(i1) {
                    Err(e) => Err(e),
                    Ok((i2, o1)) => {
                        match self.2.parse(i2) {
                            Err(e) => Err(e),
                            Ok((i3, o2)) => Ok((i3, (o0, o1, o2))),
                        }
                    },
                }
            },
        }
    }
}

/// Runs the 4 parsers in index order, each on what its predecessor
/// left, and yields their outputs as a 4-tuple.
impl<
    I: InputLength,
    E,
    FnA: Parser<I, E>,
    FnB: Parser<I, E>,
    FnC: Parser<I, E>,
    FnD: Parser<I, E>,
> Tuple<I, E> for (FnA, FnB, FnC, FnD) {
    type Output = (FnA::Output, FnB::Output, FnC::Output, FnD::Output);

    /// Every component succeeds, each on what its predecessor left.
    open spec fn succeeds(&self, i: I) -> bool {
        let i1 = self.0.remaining(i);
        let i2 = self.1.remaining(i1);
        let i3 = self.2.remaining(i2);
        &&& self.0.succeeds(i)
        &&& self.1.succeeds(i1)
        &&& self.2.succeeds(i2)
        &&& self.3.succeeds(i3)
    }

    /// What the last component leaves.
    open spec fn remaining(&self, i: I) -> I {
        let i1 = self.0.remaining(i);
        let i2 = self.1.remaining(i1);
        let i3 = self.2.remaining(i2);
        self.3.remaining(i3)
    }

    /// Position `k` holds an output of parser `k`, run on the cursor
    /// left by parser `k - 1`.
    open spec fn produces(&self, i: I, o: (FnA::Output, FnB::Output, FnC::Output, FnD::Output)) -> bool {
        let i1 = self.0.remaining(i);
        let i2 = self.1.remaining(i1);
        let i3 = self.2.remaining(i2);
        &&& self.0.produces(i, o.0)
        &&& self.1.produces(i1, o.1)
        &&& self.2.produces(i2, o.2)
        &&& self.3.produces(i3, o.3)
    }

    /// The first failing component's outcome, unchanged.
    open spec fn failure(&self, i: I) -> ParseErr<E> {
        let i1 = self.0.remaining(i);
        let i2 = self.1.remaining(i1);
        let i3 = self.2.remaining(i2);
        if !self.0.succeeds(i) {
            self.0.failure(i)
        } else if !self.1.succeeds(i1) {
            self.1.failure(i1)
        } else if !self.2.succeeds(i2) {
            self.2.failure(i2)
        } else {
            self.3.failure(i3)
        }
    }

    /// Fail-fast: when component `k` is the first to fail, the
    /// components after position `k` are never run.
    open spec fn untouched_on_failure(&self, post: Self, i: I) -> bool {
        let i1 = self.0.remaining(i);
        let i2 = self.1.remaining(i1);
        &&& !self.0.succeeds(i) ==> post.1 == self.1 && post.2 == self.2 && post.3 == self.3
        &&& self.0.succeeds(i) && !self.1.succeeds(i1) ==> post.2 == self.2 && post.3 == self.3
        &&& self.0.succeeds(i) && self.1.succeeds(i1) && !self.2.succeeds(i2) ==> post.3 == self.3
    }

    proof fn remaining_no_longer(&self, i: I) {
        self.0.remaining_no_longer(i);
        let i1 = self.0.remaining(i);
        self.1.remaining_no_longer(i1);
        let i2 = self.1.remaining(i1);
        self.2.remaining_no_longer(i2);
        let i3 = self.2.remaining(i2);
        self.3.remaining_no_longer(i3);
    }

    fn parse(&mut self, i: I) -> (r: IResult<I, (FnA::Output, FnB::Output, FnC::Output, FnD::Output), E>) {
        match self.0.parse(i) {
            Err(e) => Err(e),
            Ok((i1, o0)) => {
                match self.1.parse(i1) {
                    Err(e) => Err(e),
                    Ok((i2, o1)) => {
                        match self.2.parse(i2) {
                            Err(e) => Err(e),
                            Ok((i3, o2)) => {
                                match self.3.parse(i3) {
                                    Err(e) => Err(e),
                                    Ok((i4, o3)) => Ok((i4, (o0, o1, o2, o3))),
                                }
                            },
                        }
                    },
                }
            },
        }
    }
}

/// Runs the 5 parsers in index order, each on what its predecessor
/// left, and yields their outputs as a 5-tuple.
impl<
    I: InputLength,
    E,
    FnA: Parser<I, E>,
    FnB: Parser<I, E>,
    FnC: Parser<I, E>,
    FnD: Parser<I, E>,
    FnE: Parser<I, E>,
> Tuple<I, E> for (FnA, FnB, FnC, FnD, FnE) {
    type Output = (FnA::Output, FnB::Output, FnC::Output, FnD::Output, FnE::Output);

    /// Every component succeeds, each on what its predecessor left.
    open spec fn succeeds(&self, i: I) -> bool {
        let i1 = self.0.remaining(i);
        let i2 = self.1.remaining(i1);
        let i3 = self.2.remaining(i2);
        let i4 = self.3.remaining(i3);
        &&& self.0.succeeds(i)
        &&& self.1.succeeds(i1)
        &&& self.2.succeeds(i2)
        &&& self.3.succeeds(i3)
        &&& self.4.succeeds(i4)
    }

    /// What the last component leaves.
    open spec fn remaining(&self, i: I) -> I {
        let i1 = self.0.remaining(i);
        let i2 = self.1.remaining(i1);
        let i3 = self.2.remaining(i2);
        let i4 = self.3.remaining(i3);
        self.4.remaining(i4)
    }

    /// Position `k` holds an output of parser `k`, run on the cursor
    /// left by parser `k - 1`.
    open spec fn produces(&self, i: I, o: (FnA::Output, FnB::Output, FnC::Output, FnD::Output, FnE::Output)) -> bool {
        let i1 = self.0.remaining(i);
        let i2 = self.1.remaining(i1);
        let i3 = self.2.remaining(i2);
        let i4 = self.3.remaining(i3);
        &&& self.0.produces(i, o.0)
        &&& self.1.produces(i1, o.1)
        &&& self.2.produces(i2, o.2)
        &&& self.3.produces(i3, o.3)
        &&& self.4.produces(i4, o.4)
    }

    /// The first failing component's outcome, unchanged.
    open spec fn failure(&self, i: I) -> ParseErr<E> {
        let i1 = self.0.remaining(i);
        let i2 = self.1.remaining(i1);
        let i3 = self.2.remaining(i2);
        let i4 = self.3.remaining(i3);
        if !self.0.succeeds(i) {
            self.0.failure(i)
        } else if !self.1.succeeds(i1) {
            self.1.failure(i1)
        } else if !self.2.succeeds(i2) {
            self.2.failure(i2)
        } else if !self.3.succeeds(i3) {
            self.3.failure(i3)
        } else {
            self.4.failure(i4)
        }
    }

    /// Fail-fast: when component `k` is the first to fail, the
    /// components after position `k` are never run.
    open spec fn untouched_on_failure(&self, post: Self, i: I) -> bool {
        let i1 = self.0.remaining(i);
        let i2 = self.1.remaining(i1);
        let i3 = self.2.remaining(i2);
        &&& !self.0.succeeds(i) ==> post.1 == self.1 && post.2 == self.2 && post.3 == self.3 && post.4 == self.4
        &&& self.0.succeeds(i) && !self.1.succeeds(i1) ==> post.2 == self.2 && post.3 == self.3 && post.4 == self.4
        &&& self.0.succeeds(i) && self.1.succeeds(i1) && !self.2.succeeds(i2) ==> post.3 == self.3 && post.4 == self.4
        &&& self.0.succeeds(i) && self.1.succeeds(i1) && self.2.succeeds(i2) && !self.3.succeeds(i3) ==> post.4 == self.4
    }

    proof fn remaining_no_longer(&self, i: I) {
        self.0.remaining_no_longer(i);
        let i1 = self.0.remaining(i);
        self.1.remaining_no_longer(i1);
        let i2 = self.1.remaining(i1);
        self.2.remaining_no_longer(i2);
        let i3 = self.2.remaining(i2);
        self.3.remaining_no_longer(i3);
        let i4 = self.3.remaining(i3);
        self.4.remaining_no_longer(i4);
    }

    fn parse(&mut self, i: I) -> (r: IResult<I, (FnA::Output, FnB::Output, FnC::Output, FnD::Output, FnE::Output), E>) {
        match self.0.parse(i) {
            Err(e) => Err(e),
            Ok((i1, o0)) => {
                match self.1.parse(i1) {
                    Err(e) => Err(e),
                    Ok((i2, o1)) => {
                        match self.2.parse(i2) {
                            Err(e) => Err(e),
                            Ok((i3, o2)) => {
                                match self.3.parse(i3) {
                                    Err(e) => Err(e),
                                    Ok((i4, o3)) => {
                                        match self.4.parse(i4) {
                                            Err(e) => Err(e),
                                            Ok((i5, o4)) => Ok((i5, (o0, o1, o2, o3, o4))),
                                        }
                                    },
                                }
                            },
                        }
                    },
                }
            },
        }
    }
}

/// Runs the 6 parsers in index order, each on what its predecessor
/// left, and yields their outputs as a 6-tuple.
impl<
    I: InputLength,
    E,
    FnA: Parser<I, E>,
    FnB: Parser<I, E>,
    FnC: Parser<I, E>,
    FnD: Parser<I, E>,
    FnE: Parser<I, E>,
    FnF: Parser<I, E>,
> Tuple<I, E> for (FnA, FnB, FnC, FnD, FnE, FnF) {
    type Output = (FnA::Output, FnB::Output, FnC::Output, FnD::Output, FnE::Output, FnF::Output);

    /// Every component succeeds, each on what its predecessor left.
    open spec fn succeeds(&self, i: I) -> bool {
        let i1 = self.0.remaining(i);
        let i2 = self.1.remaining(i1);
        let i3 = self.2.remaining(i2);
        let i4 = self.3.remaining(i3);
        let i5 = self.4.remaining(i4);
        &&& self.0.succeeds(i)
        &&& self.1.succeeds(i1)
        &&& self.2.succeeds(i2)
        &&& self.3.succeeds(i3)
        &&& self.4.succeeds(i4)
        &&& self.5.succeeds(i5)
    }

    /// What the last component leaves.
    open spec fn remaining(&self, i: I) -> I {
        let i1 = self.0.remaining(i);
        let i2 = self.1.remaining(i1);
        let i3 = self.2.remaining(i2);
        let i4 = self.3.remaining(i3);
        let i5 = self.4.remaining(i4);
        self.5.remaining(i5)
    }

    /// Position `k` holds an output of parser `k`, run on the cursor
    /// left by parser `k - 1`.
    open spec fn produces(&self, i: I, o: (FnA::Output, FnB::Output, FnC::Output, FnD::Output, FnE::Output, FnF::Output)) -> bool {
        let i1 = self.0.remaining(i);
        let i2 = self.1.remaining(i1);
        let i3 = self.2.remaining(i2);
        let i4 = self.3.remaining(i3);
        let i5 = self.4.remaining(i4);
        &&& self.0.produces(i, o.0)
        &&& self.1.produces(i1, o.1)
        &&& self.2.produces(i2, o.2)
        &&& self.3.produces(i3, o.3)
        &&& self.4.produces(i4, o.4)
        &&& self.5.produces(i5, o.5)
    }

    /// The first failing component's outcome, unchanged.
    open spec fn failure(&self, i: I) -> ParseErr<E> {
        let i1 = self.0.remaining(i);
        let i2 = self.1.remaining(i1);
        let i3 = self.2.remaining(i2);
        let i4 = self.3.remaining(i3);
        let i5 = self.4.remaining(i4);
        if !self.0.succeeds(i) {
            self.0.failure(i)
        } else if !self.1.succeeds(i1) {
            self.1.failure(i1)
        } else if !self.2.succeeds(i2) {
            self.2.failure(i2)
        } else if !self.3.succeeds(i3) {
            self.3.failure(i3)
        } else if !self.4.succeeds(i4) {
            self.4.failure(i4)
        } else {
            self.5.failure(i5)
        }
    }

    /// Fail-fast: when component `k` is the first to fail, the
    /// components after position `k` are never run.
    open spec fn untouched_on_failure(&self, post: Self, i: I) -> bool {
        let i1 = self.0.remaining(i);
        let i2 = self.1.remaining(i1);
        let i3 = self.2.remaining(i2);
        let i4 = self.3.remaining(i3);
        &&& !self.0.succeeds(i) ==> post.1 == self.1 && post.2 == self.2 && post.3 == self.3 && post.4 == self.4 && post.5 == self.5
        &&& self.0.succeeds(i) && !self.1.succeeds(i1) ==> post.2 == self.2 && post.3 == self.3 && post.4 == self.4 && post.5 == self.5
        &&& self.0.succeeds(i) && self.1.succeeds(i1) && !self.2.succeeds(i2) ==> post.3 == self.3 && post.4 == self.4 && post.5 == self.5
        &&& self.0.succeeds(i) && self.1.succeeds(i1) && self.2.succeeds(i2) && !self.3.succeeds(i3) ==> post.4 == self.4 && post.5 == self.5
        &&& self.0.succeeds(i) && self.1.succeeds(i1) && self.2.succeeds(i2) && self.3.succeeds(i3) && !self.4.succeeds(i4) ==> post.5 == self.5
    }

    proof fn remaining_no_longer(&self, i: I) {
        self.0.remaining_no_longer(i);
        let i1 = self.0.remaining(i);
        self.1.remaining_no_longer(i1);
        let i2 = self.1.remaining(i1);
        self.2.remaining_no_longer(i2);
        let i3 = self.2.remaining(i2);
        self.3.remaining_no_longer(i3);
        let i4 = self.3.remaining(i3);
        self.4.remaining_no_longer(i4);
        let i5 = self.4.remaining(i4);
        self.5.remaining_no_longer(i5);
    }

    fn parse(&mut self, i: I) -> (r: IResult<I, (FnA::Output, FnB::Output, FnC::Output, FnD::Output, FnE::Output, FnF::Output), E>) {
        match self.0.parse(i) {
            Err(e) => Err(e),
            Ok((i1, o0)) => {
                match self.1.parse(i1) {
                    Err(e) => Err(e),
                    Ok((i2, o1)) => {
                        match self.2.parse(i2) {
                            Err(e) => Err(e),
                            Ok((i3, o2)) => {
                                match self.3.parse(i3) {
                                    Err(e) => Err(e),
                                    Ok((i4, o3)) => {
                                        match self.4.parse(i4) {
                                            Err(e) => Err(e),
                                            Ok((i5, o4)) => {
                                                match self.5.parse(i5) {
                                                    Err(e) => Err(e),
                                                    Ok((i6, o5)) => Ok((i6, (o0, o1, o2, o3, o4, o5))),
                                                }
                                            },
                                        }
                                    },
                                }
                            },
                        }
                    },
                }
            },
        }
    }
}

/// Runs the 7 parsers in index order, each on what its predecessor
/// left, and yields their outputs as a 7-tuple.
impl<
    I: InputLength,
    E,
    FnA: Parser<I, E>,
    FnB: Parser<I, E>,
    FnC: Parser<I, E>,
    FnD: Parser<I, E>,
    FnE: Parser<I, E>,
    FnF: Parser<I, E>,
    FnG: Parser<I, E>,
> Tuple<I, E> for (FnA, FnB, FnC, FnD, FnE, FnF, FnG) {
    type Output = (FnA::Output, FnB::Output, FnC::Output, FnD::Output, FnE::Output, FnF::Output, FnG::Output);

    /// Every component succeeds, each on what its predecessor left.
    open spec fn succeeds(&self, i: I) -> bool {
        let i1 = self.0.remaining(i);
        let i2 = self.1.remaining(i1);
        let i3 = self.2.remaining(i2);
        let i4 = self.3.remaining(i3);
        let i5 = self.4.remaining(i4);
        let i6 = self.5.remaining(i5);
        &&& self.0.succeeds(i)
        &&& self.1.succeeds(i1)
        &&& self.2.succeeds(i2)
        &&& self.3.succeeds(i3)
        &&& self.4.succeeds(i4)
        &&& self.5.succeeds(i5)
        &&& self.6.succeeds(i6)
    }

    /// What the last component leaves.
    open spec fn remaining(&self, i: I) -> I {
        let i1 = self.0.remaining(i);
        let i2 = self.1.remaining(i1);
        let i3 = self.2.remaining(i2);
        let i4 = self.3.remaining(i3);
        let i5 = self.4.remaining(i4);
        let i6 = self.5.remaining(i5);
        self.6.remaining(i6)
    }

    /// Position `k` holds an output of parser `k`, run on the cursor
    /// left by parser `k - 1`.
    open spec fn produces(&self, i: I, o: (FnA::Output, FnB::Output, FnC::Output, FnD::Output, FnE::Output, FnF::Output, FnG::Output)) -> bool {
        let i1 = self.0.remaining(i);
        let i2 = self.1.remaining(i1);
        let i3 = self.2.remaining(i2);
        let i4 = self.3.remaining(i3);
        let i5 = self.4.remaining(i4);
        let i6 = self.5.remaining(i5);
        &&& self.0.produces(i, o.0)
        &&& self.1.produces(i1, o.1)
        &&& self.2.produces(i2, o.2)
        &&& self.3.produces(i3, o.3)
        &&& self.4.produces(i4, o.4)
        &&& self.5.produces(i5, o.5)
        &&& self.6.produces(i6, o.6)
    }

    /// The first failing component's outcome, unchanged.
    open spec fn failure(&self, i: I) -> ParseErr<E> {
        let i1 = self.0.remaining(i);
        let i2 = self.1.remaining(i1);
        let i3 = self.2.remaining(i2);
        let i4 = self.3.remaining(i3);
        let i5 = self.4.remaining(i4);
        let i6 = self.5.remaining(i5);
        if !self.0.succeeds(i) {
            self.0.failure(i)
        } else if !self.1.succeeds(i1) {
            self.1.failure(i1)
        } else if !self.2.succeeds(i2) {
            self.2.failure(i2)
        } else if !self.3.succeeds(i3) {
            self.3.failure(i3)
        } else if !self.4.succeeds(i4) {
            self.4.failure(i4)
        } else if !self.5.succeeds(i5) {
            self.5.failure(i5)
        } else {
            self.6.failure(i6)
        }
    }

    /// Fail-fast: when component `k` is the first to fail, the
    /// components after position `k` are never run.
    open spec fn untouched_on_failure(&self, post: Self, i: I) -> bool {
        let i1 = self.0.remaining(i);
        let i2 = self.1.remaining(i1);
        let i3 = self.2.remaining(i2);
        let i4 = self.3.remaining(i3);
        let i5 = self.4.remaining(i4);
        &&& !self.0.succeeds(i) ==> post.1 == self.1 && post.2 == self.2 && post.3 == self.3 && post.4 == self.4 && post.5 == self.5 && post.6 == self.6
        &&& self.0.succeeds(i) && !self.1.succeeds(i1) ==> post.2 == self.2 && post.3 == self.3 && post.4 == self.4 && post.5 == self.5 && post.6 == self.6
        &&& self.0.succeeds(i) && self.1.succeeds(i1) && !self.2.succeeds(i2) ==> post.3 == self.3 && post.4 == self.4 && post.5 == self.5 && post.6 == self.6
        &&& self.0.succeeds(i) && self.1.succeeds(i1) && self.2.succeeds(i2) && !self.3.succeeds(i3) ==> post.4 == self.4 && post.5 == self.5 && post.6 == self.6
        &&& self.0.succeeds(i) && self.1.succeeds(i1) && self.2.succeeds(i2) && self.3.succeeds(i3) && !self.4.succeeds(i4) ==> post.5 == self.5 && post.6 == self.6
        &&& self.0.succeeds(i) && self.1.succeeds(i1) && self.2.succeeds(i2) && self.3.succeeds(i3) && self.4.succeeds(i4) && !self.5.succeeds(i5) ==> post.6 == self.6
    }

    proof fn remaining_no_longer(&self, i: I) {
        self.0.remaining_no_longer(i);
        let i1 = self.0.remaining(i);
        self.1.remaining_no_longer(i1);
        let i2 = self.1.remaining(i1);
        self.2.remaining_no_longer(i2);
        let i3 = self.2.remaining(i2);
        self.3.remaining_no_longer(i3);
        let i4 = self.3.remaining(i3);
        self.4.remaining_no_longer(i4);
        let i5 = self.4.remaining(i4);
        self.5.remaining_no_longer(i5);
        let i6 = self.5.remaining(i5);
        self.6.remaining_no_longer(i6);
    }

    fn parse(&mut self, i: I) -> (r: IResult<I, (FnA::Output, FnB::Output, FnC::Output, FnD::Output, FnE::Output, FnF::Output, FnG::Output), E>) {
        match self.0.parse(i) {
            Err(e) => Err(e),
            Ok((i1, o0)) => {
                match self.1.parse(i1) {
                    Err(e) => Err(e),
                    Ok((i2, o1)) => {
                        match self.2.parse(i2) {
                            Err(e) => Err(e),
                            Ok((i3, o2)) => {
                                match self.3.parse(i3) {
                                    Err(e) => Err(e),
                                    Ok((i4, o3)) => {
                                        match self.4.parse(i4) {
                                            Err(e) => Err(e),
                                            Ok((i5, o4)) => {
                                                match self.5.parse(i5) {
                                                    Err(e) => Err(e),
                                                    Ok((i6, o5)) => {
                                                        match self.6.parse(i6) {
                                                            Err(e) => Err(e),
                                                            Ok((i7, o6)) => Ok((i7, (o0, o1, o2, o3, o4, o5, o6))),
                                                        }
                                                    },
                                                }
                                            },
                                        }
                                    },
                                }
                            },
                        }
                    },
                }
            },
        }
    }
}

/// Runs the 8 parsers in index order, each on what its predecessor
/// left, and yields their outputs as a 8-tuple.
impl<
    I: InputLength,
    E,
    FnA: Parser<I, E>,
    FnB: Parser<I, E>,
    FnC: Parser<I, E>,
    FnD: Parser<I, E>,
    FnE: Parser<I, E>,
    FnF: Parser<I, E>,
    FnG: Parser<I, E>,
    FnH: Parser<I, E>,
> Tuple<I, E> for (FnA, FnB, FnC, FnD, FnE, FnF, FnG, FnH) {
    type Output = (FnA::Output, FnB::Output, FnC::Output, FnD::Output, FnE::Output, FnF::Output, FnG::Output, FnH::Output);

    /// Every component succeeds, each on what its predecessor left.
    open spec fn succeeds(&self, i: I) -> bool {
        let i1 = self.0.remaining(i);
        let i2 = self.1.remaining(i1);
        let i3 = self.2.remaining(i2);
        let i4 = self.3.remaining(i3);
        let i5 = self.4.remaining(i4);
        let i6 = self.5.remaining(i5);
        let i7 = self.6.remaining(i6);
        &&& self.0.succeeds(i)
        &&& self.1.succeeds(i1)
        &&& self.2.succeeds(i2)
        &&& self.3.succeeds(i3)
        &&& self.4.succeeds(i4)
        &&& self.5.succeeds(i5)
        &&& self.6.succeeds(i6)
        &&& self.7.succeeds(i7)
    }

    /// What the last component leaves.
    open spec fn remaining(&self, i: I) -> I {
        let i1 = self.0.remaining(i);
        let i2 = self.1.remaining(i1);
        let i3 = self.2.remaining(i2);
        let i4 = self.3.remaining(i3);
        let i5 = self.4.remaining(i4);
        let i6 = self.5.remaining(i5);
        let i7 = self.6.remaining(i6);
        self.7.remaining(i7)
    }

    /// Position `k` holds an output of parser `k`, run on the cursor
    /// left by parser `k - 1`.
    open spec fn produces(&self, i: I, o: (FnA::Output, FnB::Output, FnC::Output, FnD::Output, FnE::Output, FnF::Output, FnG::Output, FnH::Output)) -> bool {
        let i1 = self.0.remaining(i);
        let i2 = self.1.remaining(i1);
        let i3 = self.2.remaining(i2);
        let i4 = self.3.remaining(i3);
        let i5 = self.4.remaining(i4);
        let i6 = self.5.remaining(i5);
        let i7 = self.6.remaining(i6);
        &&& self.0.produces(i, o.0)
        &&& self.1.produces(i1, o.1)
        &&& self.2.produces(i2, o.2)
        &&& self.3.produces(i3, o.3)
        &&& self.4.produces(i4, o.4)
        &&& self.5.produces(i5, o.5)
        &&& self.6.produces(i6, o.6)
        &&& self.7.produces(i7, o.7)
    }

    /// The first failing component's outcome, unchanged.
    open spec fn failure(&self, i: I) -> ParseErr<E> {
        let i1 = self.0.remaining(i);
        let i2 = self.1.remaining(i1);
        let i3 = self.2.remaining(i2);
        let i4 = self.3.remaining(i3);
        let i5 = self.4.remaining(i4);
        let i6 = self.5.remaining(i5);
        let i7 = self.6.remaining(i6);
        if !self.0.succeeds(i) {
            self.0.failure(i)
        } else if !self.1.succeeds(i1) {
            self.1.failure(i1)
        } else if !self.2.succeeds(i2) {
            self.2.failure(i2)
        } else if !self.3.succeeds(i3) {
            self.3.failure(i3)
        } else if !self.4.succeeds(i4) {
            self.4.failure(i4)
        } else if !self.5.succeeds(i5) {
            self.5.failure(i5)
        } else if !self.6.succeeds(i6) {
            self.6.failure(i6)
        } else {
            self.7.failure(i7)
        }
    }

    /// Fail-fast: when component `k` is the first to fail, the
    /// components after position `k` are never run.
    open spec fn untouched_on_failure(&self, post: Self, i: I) -> bool {
        let i1 = self.0.remaining(i);
        let i2 = self.1.remaining(i1);
        let i3 = self.2.remaining(i2);
        let i4 = self.3.remaining(i3);
        let i5 = self.4.remaining(i4);
        let i6 = self.5.remaining(i5);
        &&& !self.0.succeeds(i) ==> post.1 == self.1 && post.2 == self.2 && post.3 == self.3 && post.4 == self.4 && post.5 == self.5 && post.6 == self.6 && post.7 == self.7
        &&& self.0.succeeds(i) && !self.1.succeeds(i1) ==> post.2 == self.2 && post.3 == self.3 && post.4 == self.4 && post.5 == self.5 && post.6 == self.6 && post.7 == self.7
        &&& self.0.succeeds(i) && self.1.succeeds(i1) && !self.2.succeeds(i2) ==> post.3 == self.3 && post.4 == self.4 && post.5 == self.5 && post.6 == self.6 && post.7 == self.7
        &&& self.0.succeeds(i) && self.1.succeeds(i1) && self.2.succeeds(i2) && !self.3.succeeds(i3) ==> post.4 == self.4 && post.5 == self.5 && post.6 == self.6 && post.7 == self.7
        &&& self.0.succeeds(i) && self.1.succeeds(i1) && self.2.succeeds(i2) && self.3.succeeds(i3) && !self.4.succeeds(i4) ==> post.5 == self.5 && post.6 == self.6 && post.7 == self.7
        &&& self.0.succeeds(i) && self.1.succeeds(i1) && self.2.succeeds(i2) && self.3.succeeds(i3) && self.4.succeeds(i4) && !self.5.succeeds(i5) ==> post.6 == self.6 && post.7 == self.7
        &&& self.0.succeeds(i) && self.1.succeeds(i1) && self.2.succeeds(i2) && self.3.succeeds(i3) && self.4.succeeds(i4) && self.5.succeeds(i5) && !self.6.succeeds(i6) ==> post.7 == self.7
    }

    proof fn remaining_no_longer(&self, i: I) {
        self.0.remaining_no_longer(i);
        let i1 = self.0.remaining(i);
        self.1.remaining_no_longer(i1);
        let i2 = self.1.remaining(i1);
        self.2.remaining_no_longer(i2);
        let i3 = self.2.remaining(i2);
        self.3.remaining_no_longer(i3);
        let i4 = self.3.remaining(i3);
        self.4.remaining_no_longer(i4);
        let i5 = self.4.remaining(i4);
        self.5.remaining_no_longer(i5);
        let i6 = self.5.remaining(i5);
        self.6.remaining_no_longer(i6);
        let i7 = self.6.remaining(i6);
        self.7.remaining_no_longer(i7);
    }

    fn parse(&mut self, i: I) -> (r: IResult<I, (FnA::Output, FnB::Output, FnC::Output, FnD::Output, FnE::Output, FnF::Output, FnG::Output, FnH::Output), E>) {
        match self.0.parse(i) {
            Err(e) => Err(e),
            Ok((i1, o0)) => {
                match self.1.parse(i1) {
                    Err(e) => Err(e),
                    Ok((i2, o1)) => {
                        match self.2.parse(i2) {
                            Err(e) => Err(e),
                            Ok((i3, o2)) => {
                                match self.3.parse(i3) {
                                    Err(e) => Err(e),
                                    Ok((i4, o3)) => {
                                        match self.4.parse(i4) {
                                            Err(e) => Err(e),
                                            Ok((i5, o4)) => {
                                                match self.5.parse(i5) {
                                                    Err(e) => Err(e),
                                                    Ok((i6, o5)) => {
                                                        match self.6.parse(i6) {
                                                            Err(e) => Err(e),
                                                            Ok((i7, o6)) => {
                                                                match self.7.parse(i7) {
                                                                    Err(e) => Err(e),
                                                                    Ok((i8, o7)) => Ok((i8, (o0, o1, o2, o3, o4, o5, o6, o7))),
                                                                }
                                                            },
                                                        }
                                                    },
                                                }
                                            },
                                        }
                                    },
                                }
                            },
                        }
                    },
                }
            },
        }
    }
}

/// Runs the 9 parsers in index order, each on what its predecessor
/// left, and yields their outputs as a 9-tuple.
impl<
    I: InputLength,
    E,
    FnA: Parser<I, E>,
    FnB: Parser<I, E>,
    FnC: Parser<I, E>,
    FnD: Parser<I, E>,
    FnE: Parser<I, E>,
    FnF: Parser<I, E>,
    FnG: Parser<I, E>,
    FnH: Parser<I, E>,
    FnI: Parser<I, E>,
> Tuple<I, E> for (FnA, FnB, FnC, FnD, FnE, FnF, FnG, FnH, FnI) {
    type Output = (FnA::Output, FnB::Output, FnC::Output, FnD::Output, FnE::Output, FnF::Output, FnG::Output, FnH::Output, FnI::Output);

    /// Every component succeeds, each on what its predecessor left.
    open spec fn succeeds(&self, i: I) -> bool {
        let i1 = self.0.remaining(i);
        let i2 = self.1.remaining(i1);
        let i3 = self.2.remaining(i2);
        let i4 = self.3.remaining(i3);
        let i5 = self.4.remaining(i4);
        let i6 = self.5.remaining(i5);
        let i7 = self.6.remaining(i6);
        let i8 = self.7.remaining(i7);
        &&& self.0.succeeds(i)
        &&& self.1.succeeds(i1)
        &&& self.2.succeeds(i2)
        &&& self.3.succeeds(i3)
        &&& self.4.succeeds(i4)
        &&& self.5.succeeds(i5)
        &&& self.6.succeeds(i6)
        &&& self.7.succeeds(i7)
        &&& self.8.succeeds(i8)
    }

    /// What the last component leaves.
    open spec fn remaining(&self, i: I) -> I {
        let i1 = self.0.remaining(i);
        let i2 = self.1.remaining(i1);
        let i3 = self.2.remaining(i2);
        let i4 = self.3.remaining(i3);
        let i5 = self.4.remaining(i4);
        let i6 = self.5.remaining(i5);
        let i7 = self.6.remaining(i6);
        let i8 = self.7.remaining(i7);
        self.8.remaining(i8)
    }

    /// Position `k` holds an output of parser `k`, run on the cursor
    /// left by parser `k - 1`.
    open spec fn produces(&self, i: I, o: (FnA::Output, FnB::Output, FnC::Output, FnD::Output, FnE::Output, FnF::Output, FnG::Output, FnH::Output, FnI::Output)) -> bool {
        let i1 = self.0.remaining(i);
        let i2 = self.1.remaining(i1);
        let i3 = self.2.remaining(i2);
        let i4 = self.3.remaining(i3);
        let i5 = self.4.remaining(i4);
        let i6 = self.5.remaining(i5);
        let i7 = self.6.remaining(i6);
        let i8 = self.7.remaining(i7);
        &&& self.0.produces(i, o.0)
        &&& self.1.produces(i1, o.1)
        &&& self.2.produces(i2, o.2)
        &&& self.3.produces(i3, o.3)
        &&& self.4.produces(i4, o.4)
        &&& self.5.produces(i5, o.5)
        &&& self.6.produces(i6, o.6)
        &&& self.7.produces(i7, o.7)
        &&& self.8.produces(i8, o.8)
    }

    /// The first failing component's outcome, unchanged.
    open spec fn failure(&self, i: I) -> ParseErr<E> {
        let i1 = self.0.remaining(i);
        let i2 = self.1.remaining(i1);
        let i3 = self.2.remaining(i2);
        let i4 = self.3.remaining(i3);
        let i5 = self.4.remaining(i4);
        let i6 = self.5.remaining(i5);
        let i7 = self.6.remaining(i6);
        let i8 = self.7.remaining(i7);
        if !self.0.succeeds(i) {
            self.0.failure(i)
        } else if !self.1.succeeds(i1) {
            self.1.failure(i1)
        } else if !self.2.succeeds(i2) {
            self.2.failure(i2)
        } else if !self.3.succeeds(i3) {
            self.3.failure(i3)
        } else if !self.4.succeeds(i4) {
            self.4.failure(i4)
        } else if !self.5.succeeds(i5) {
            self.5.failure(i5)
        } else if !self.6.succeeds(i6) {
            self.6.failure(i6)
        } else if !self.7.succeeds(i7) {
            self.7.failure(i7)
        } else {
            self.8.failure(i8)
        }
    }

    /// Fail-fast: when component `k` is the first to fail, the
    /// components after position `k` are never run.
    open spec fn untouched_on_failure(&self, post: Self, i: I) -> bool {
        let i1 = self.0.remaining(i);
        let i2 = self.1.remaining(i1);
        let i3 = self.2.remaining(i2);
        let i4 = self.3.remaining(i3);
        let i5 = self.4.remaining(i4);
        let i6 = self.5.remaining(i5);
        let i7 = self.6.remaining(i6);
        &&& !self.0.succeeds(i) ==> post.1 == self.1 && post.2 == self.2 && post.3 == self.3 && post.4 == self.4 && post.5 == self.5 && post.6 == self.6 && post.7 == self.7 && post.8 == self.8
        &&& self.0.succeeds(i) && !self.1.succeeds(i1) ==> post.2 == self.2 && post.3 == self.3 && post.4 == self.4 && post.5 == self.5 && post.6 == self.6 && post.7 == self.7 && post.8 == self.8
        &&& self.0.succeeds(i) && self.1.succeeds(i1) && !self.2.succeeds(i2) ==> post.3 == self.3 && post.4 == self.4 && post.5 == self.5 && post.6 == self.6 && post.7 == self.7 && post.8 == self.8
        &&& self.0.succeeds(i) && self.1.succeeds(i1) && self.2.succeeds(i2) && !self.3.succeeds(i3) ==> post.4 == self.4 && post.5 == self.5 && post.6 == self.6 && post.7 == self.7 && post.8 == self.8
        &&& self.0.succeeds(i) && self.1.succeeds(i1) && self.2.succeeds(i2) && self.3.succeeds(i3) && !self.4.succeeds(i4) ==> post.5 == self.5 && post.6 == self.6 && post.7 == self.7 && post.8 == self.8
        &&& self.0.succeeds(i) && self.1.succeeds(i1) && self.2.succeeds(i2) && self.3.succeeds(i3) && self.4.succeeds(i4) && !self.5.succeeds(i5) ==> post.6 == self.6 && post.7 == self.7 && post.8 == self.8
        &&& self.0.succeeds(i) && self.1.succeeds(i1) && self.2.succeeds(i2) && self.3.succeeds(i3) && self.4.succeeds(i4) && self.5.succeeds(i5) && !self.6.succeeds(i6) ==> post.7 == self.7 && post.8 == self.8
        &&& self.0.succeeds(i) && self.1.succeeds(i1) && self.2.succeeds(i2) && self.3.succeeds(i3) && self.4.succeeds(i4) && self.5.succeeds(i5) && self.6.succeeds(i6) && !self.7.succeeds(i7) ==> post.8 == self.8
    }

    proof fn remaining_no_longer(&self, i: I) {
        self.0.remaining_no_longer(i);
        let i1 = self.0.remaining(i);
        self.1.remaining_no_longer(i1);
        let i2 = self.1.remaining(i1);
        self.2.remaining_no_longer(i2);
        let i3 = self.2.remaining(i2);
        self.3.remaining_no_longer(i3);
        let i4 = self.3.remaining(i3);
        self.4.remaining_no_longer(i4);
        let i5 = self.4.remaining(i4);
        self.5.remaining_no_longer(i5);
        let i6 = self.5.remaining(i5);
        self.6.remaining_no_longer(i6);
        let i7 = self.6.remaining(i6);
        self.7.remaining_no_longer(i7);
        let i8 = self.7.remaining(i7);
        self.8.remaining_no_longer(i8);
    }

    fn parse(&mut self, i: I) -> (r: IResult<I, (FnA::Output, FnB::Output, FnC::Output, FnD::Output, FnE::Output, FnF::Output, FnG::Output, FnH::Output, FnI::Output), E>) {
        match self.0.parse(i) {
            Err(e) => Err(e),
            Ok((i1, o0)) => {
                match self.1.parse(i1) {
                    Err(e) => Err(e),
                    Ok((i2, o1)) => {
                        match self.2.parse(i2) {
                            Err(e) => Err(e),
                            Ok((i3, o2)) => {
                                match self.3.parse(i3) {
                                    Err(e) => Err(e),
                                    Ok((i4, o3)) => {
                                        match self.4.parse(i4) {
                                            Err(e) => Err(e),
                                            Ok((i5, o4)) => {
                                                match self.5.parse(i5) {
                                                    Err(e) => Err(e),
                                                    Ok((i6, o5)) => {
                                                        match self.6.parse(i6) {
                                                            Err(e) => Err(e),
                                                            Ok((i7, o6)) => {
                                                                match self.7.parse(i7) {
                                                                    Err(e) => Err(e),
                                                                    Ok((i8, o7)) => {
                                                                        match self.8.parse(i8) {
                                                                            Err(e) => Err(e),
                                                                            Ok((i9, o8)) => Ok((i9, (o0, o1, o2, o3, o4, o5, o6, o7, o8))),
                                                                        }
                                                                    },
                                                                }
                                                            },
                                                        }
                                                    },
                                                }
                                            },
                                        }
                                    },
                                }
                            },
                        }
                    },
                }
            },
        }
    }
}

/// Runs the 10 parsers in index order, each on what its predecessor
/// left, and yields their outputs as a 10-tuple.
impl<
    I: InputLength,
    E,
    FnA: Parser<I, E>,
    FnB: Parser<I, E>,
    FnC: Parser<I, E>,
    FnD: Parser<I, E>,
    FnE: Parser<I, E>,
    FnF: Parser<I, E>,
    FnG: Parser<I, E>,
    FnH: Parser<I, E>,
    FnI: Parser<I, E>,
    FnJ: Parser<I, E>,
> Tuple<I, E> for (FnA, FnB, FnC, FnD, FnE, FnF, FnG, FnH, FnI, FnJ) {
    type Output = (FnA::Output, FnB::Output, FnC::Output, FnD::Output, FnE::Output, FnF::Output, FnG::Output, FnH::Output, FnI::Output, FnJ::Output);

    /// Every component succeeds, each on what its predecessor left.
    open spec fn succeeds(&self, i: I) -> bool {
        let i1 = self.0.remaining(i);
        let i2 = self.1.remaining(i1);
        let i3 = self.2.remaining(i2);
        let i4 = self.3.remaining(i3);
        let i5 = self.4.remaining(i4);
        let i6 = self.5.remaining(i5);
        let i7 = self.6.remaining(i6);
        let i8 = self.7.remaining(i7);
        let i9 = self.8.remaining(i8);
        &&& self.0.succeeds(i)
        &&& self.1.succeeds(i1)
        &&& self.2.succeeds(i2)
        &&& self.3.succeeds(i3)
        &&& self.4.succeeds(i4)
        &&& self.5.succeeds(i5)
        &&& self.6.succeeds(i6)
        &&& self.7.succeeds(i7)
        &&& self.8.succeeds(i8)
        &&& self.9.succeeds(i9)
    }

    /// What the last component leaves.
    open spec fn remaining(&self, i: I) -> I {
        let i1 = self.0.remaining(i);
        let i2 = self.1.remaining(i1);
        let i3 = self.2.remaining(i2);
        let i4 = self.3.remaining(i3);
        let i5 = self.4.remaining(i4);
        let i6 = self.5.remaining(i5);
        let i7 = self.6.remaining(i6);
        let i8 = self.7.remaining(i7);
        let i9 = self.8.remaining(i8);
        self.9.remaining(i9)
    }

    /// Position `k` holds an output of parser `k`, run on the cursor
    /// left by parser `k - 1`.
    open spec fn produces(&self, i: I, o: (FnA::Output, FnB::Output, FnC::Output, FnD::Output, FnE::Output, FnF::Output, FnG::Output, FnH::Output, FnI::Output, FnJ::Output)) -> bool {
        let i1 = self.0.remaining(i);
        let i2 = self.1.remaining(i1);
        let i3 = self.2.remaining(i2);
        let i4 = self.3.remaining(i3);
        let i5 = self.4.remaining(i4);
        let i6 = self.5.remaining(i5);
        let i7 = self.6.remaining(i6);
        let i8 = self.7.remaining(i7);
        let i9 = self.8.remaining(i8);
        &&& self.0.produces(i, o.0)
        &&& self.1.produces(i1, o.1)
        &&& self.2.produces(i2, o.2)
        &&& self.3.produces(i3, o.3)
        &&& self.4.produces(i4, o.4)
        &&& self.5.produces(i5, o.5)
        &&& self.6.produces(i6, o.6)
        &&& self.7.produces(i7, o.7)
        &&& self.8.produces(i8, o.8)
        &&& self.9.produces(i9, o.9)
    }

    /// The first failing component's outcome, unchanged.
    open spec fn failure(&self, i: I) -> ParseErr<E> {
        let i1 = self.0.remaining(i);
        let i2 = self.1.remaining(i1);
        let i3 = self.2.remaining(i2);
        let i4 = self.3.remaining(i3);
        let i5 = self.4.remaining(i4);
        let i6 = self.5.remaining(i5);
        let i7 = self.6.remaining(i6);
        let i8 = self.7.remaining(i7);
        let i9 = self.8.remaining(i8);
        if !self.0.succeeds(i) {
            self.0.failure(i)
        } else if !self.1.succeeds(i1) {
            self.1.failure(i1)
        } else if !self.2.succeeds(i2) {
            self.2.failure(i2)
        } else if !self.3.succeeds(i3) {
            self.3.failure(i3)
        } else if !self.4.succeeds(i4) {
            self.4.failure(i4)
        } else if !self.5.succeeds(i5) {
            self.5.failure(i5)
        } else if !self.6.succeeds(i6) {
            self.6.failure(i6)
        } else if !self.7.succeeds(i7) {
            self.7.failure(i7)
        } else if !self.8.succeeds(i8) {
            self.8.failure(i8)
        } else {
            self.9.failure(i9)
        }
    }

    /// Fail-fast: when component `k` is the first to fail, the
    /// components after position `k` are never run.
    open spec fn untouched_on_failure(&self, post: Self, i: I) -> bool {
        let i1 = self.0.remaining(i);
        let i2 = self.1.remaining(i1);
        let i3 = self.2.remaining(i2);
        let i4 = self.3.remaining(i3);
        let i5 = self.4.remaining(i4);
        let i6 = self.5.remaining(i5);
        let i7 = self.6.remaining(i6);
        let i8 = self.7.remaining(i7);
        &&& !self.0.succeeds(i) ==> post.1 == self.1 && post.2 == self.2 && post.3 == self.3 && post.4 == self.4 && post.5 == self.5 && post.6 == self.6 && post.7 == self.7 && post.8 == self.8 && post.9 == self.9
        &&& self.0.succeeds(i) && !self.1.succeeds(i1) ==> post.2 == self.2 && post.3 == self.3 && post.4 == self.4 && post.5 == self.5 && post.6 == self.6 && post.7 == self.7 && post.8 == self.8 && post.9 == self.9
        &&& self.0.succeeds(i) && self.1.succeeds(i1) && !self.2.succeeds(i2) ==> post.3 == self.3 && post.4 == self.4 && post.5 == self.5 && post.6 == self.6 && post.7 == self.7 && post.8 == self.8 && post.9 == self.9
        &&& self.0.succeeds(i) && self.1.succeeds(i1) && self.2.succeeds(i2) && !self.3.succeeds(i3) ==> post.4 == self.4 && post.5 == self.5 && post.6 == self.6 && post.7 == self.7 && post.8 == self.8 && post.9 == self.9
        &&& self.0.succeeds(i) && self.1.succeeds(i1) && self.2.succeeds(i2) && self.3.succeeds(i3) && !self.4.succeeds(i4) ==> post.5 == self.5 && post.6 == self.6 && post.7 == self.7 && post.8 == self.8 && post.9 == self.9
        &&& self.0.succeeds(i) && self.1.succeeds(i1) && self.2.succeeds(i2) && self.3.succeeds(i3) && self.4.succeeds(i4) && !self.5.succeeds(i5) ==> post.6 == self.6 && post.7 == self.7 && post.8 == self.8 && post.9 == self.9
        &&& self.0.succeeds(i) && self.1.succeeds(i1) && self.2.succeeds(i2) && self.3.succeeds(i3) && self.4.succeeds(i4) && self.5.succeeds(i5) && !self.6.succeeds(i6) ==> post.7 == self.7 && post.8 == self.8 && post.9 == self.9
        &&& self.0.succeeds(i) && self.1.succeeds(i1) && self.2.succeeds(i2) && self.3.succeeds(i3) && self.4.succeeds(i4) && self.5.succeeds(i5) && self.6.succeeds(i6) && !self.7.succeeds(i7) ==> post.8 == self.8 && post.9 == self.9
        &&& self.0.succeeds(i) && self.1.succeeds(i1) && self.2.succeeds(i2) && self.3.succeeds(i3) && self.4.succeeds(i4) && self.5.succeeds(i5) && self.6.succeeds(i6) && self.7.succeeds(i7) && !self.8.succeeds(i8) ==> post.9 == self.9
    }

    proof fn remaining_no_longer(&self, i: I) {
        self.0.remaining_no_longer(i);
        let i1 = self.0.remaining(i);
        self.1.remaining_no_longer(i1);
        let i2 = self.1.remaining(i1);
        self.2.remaining_no_longer(i2);
        let i3 = self.2.remaining(i2);
        self.3.remaining_no_longer(i3);
        let i4 = self.3.remaining(i3);
        self.4.remaining_no_longer(i4);
        let i5 = self.4.remaining(i4);
        self.5.remaining_no_longer(i5);
        let i6 = self.5.remaining(i5);
        self.6.remaining_no_longer(i6);
        let i7 = self.6.remaining(i6);
        self.7.remaining_no_longer(i7);
        let i8 = self.7.remaining(i7);
        self.8.remaining_no_longer(i8);
        let i9 = self.8.remaining(i8);
        self.9.remaining_no_longer(i9);
    }

    fn parse(&mut self, i: I) -> (r: IResult<I, (FnA::Output, FnB::Output, FnC::Output, FnD::Output, FnE::Output, FnF::Output, FnG::Output, FnH::Output, FnI::Output, FnJ::Output), E>) {
        match self.0.parse(i) {
            Err(e) => Err(e),
            Ok((i1, o0)) => {
                match self.1.parse(i1) {
                    Err(e) => Err(e),
                    Ok((i2, o1)) => {
                        match self.2.parse(i2) {
                            Err(e) => Err(e),
                            Ok((i3, o2)) => {
                                match self.3.parse(i3) {
                                    Err(e) => Err(e),
                                    Ok((i4, o3)) => {
                                        match self.4.parse(i4) {
                                            Err(e) => Err(e),
                                            Ok((i5, o4)) => {
                                                match self.5.parse(i5) {
                                                    Err(e) => Err(e),
                                                    Ok((i6, o5)) => {
                                                        match self.6.parse(i6) {
                                                            Err(e) => Err(e),
                                                            Ok((i7, o6)) => {
                                                                match self.7.parse(i7) {
                                                                    Err(e) => Err(e),
                                                                    Ok((i8, o7)) => {
                                                                        match self.8.parse(i8) {
                                                                            Err(e) => Err(e),
                                                                            Ok((i9, o8)) => {
                                                                                match self.9.parse(i9) {
                                                                                    Err(e) => Err(e),
                                                                                    Ok((i10, o9)) => Ok((i10, (o0, o1, o2, o3, o4, o5, o6, o7, o8, o9))),
                                                                                }
                                                                            },
                                                                        }
                                                                    },
                                                                }
                                                            },
                                                        }
                                                    },
                                                }
                                            },
                                        }
                                    },
                                }
                            },
                        }
                    },
                }
            },
        }
    }
}

/// Runs the 11 parsers in index order, each on what its predecessor
/// left, and yields their outputs as a 11-tuple.
impl<
    I: InputLength,
    E,
    FnA: Parser<I, E>,
    FnB: Parser<I, E>,
    FnC: Parser<I, E>,
    FnD: Parser<I, E>,
    FnE: Parser<I, E>,
    FnF: Parser<I, E>,
    FnG: Parser<I, E>,
    FnH: Parser<I, E>,
    FnI: Parser<I, E>,
    FnJ: Parser<I, E>,
    FnK: Parser<I, E>,
> Tuple<I, E> for (FnA, FnB, FnC, FnD, FnE, FnF, FnG, FnH, FnI, FnJ, FnK) {
    type Output = (FnA::Output, FnB::Output, FnC::Output, FnD::Output, FnE::Output, FnF::Output, FnG::Output, FnH::Output, FnI::Output, FnJ::Output, FnK::Output);

    /// Every component succeeds, each on what its predecessor left.
    open spec fn succeeds(&self, i: I) -> bool {
        let i1 = self.0.remaining(i);
        let i2 = self.1.remaining(i1);
        let i3 = self.2.remaining(i2);
        let i4 = self.3.remaining(i3);
        let i5 = self.4.remaining(i4);
        let i6 = self.5.remaining(i5);
        let i7 = self.6.remaining(i6);
        let i8 = self.7.remaining(i7);
        let i9 = self.8.remaining(i8);
        let i10 = self.9.remaining(i9);
        &&& self.0.succeeds(i)
        &&& self.1.succeeds(i1)
        &&& self.2.succeeds(i2)
        &&& self.3.succeeds(i3)
        &&& self.4.succeeds(i4)
        &&& self.5.succeeds(i5)
        &&& self.6.succeeds(i6)
        &&& self.7.succeeds(i7)
        &&& self.8.succeeds(i8)
        &&& self.9.succeeds(i9)
        &&& self.10.succeeds(i10)
    }

    /// What the last component leaves.
    open spec fn remaining(&self, i: I) -> I {
        let i1 = self.0.remaining(i);
        let i2 = self.1.remaining(i1);
        let i3 = self.2.remaining(i2);
        let i4 = self.3.remaining(i3);
        let i5 = self.4.remaining(i4);
        let i6 = self.5.remaining(i5);
        let i7 = self.6.remaining(i6);
        let i8 = self.7.remaining(i7);
        let i9 = self.8.remaining(i8);
        let i10 = self.9.remaining(i9);
        self.10.remaining(i10)
    }

    /// Position `k` holds an output of parser `k`, run on the cursor
    /// left by parser `k - 1`.
    open spec fn produces(&self, i: I, o: (FnA::Output, FnB::Output, FnC::Output, FnD::Output, FnE::Output, FnF::Output, FnG::Output, FnH::Output, FnI::Output, FnJ::Output, FnK::Output)) -> bool {
        let i1 = self.0.remaining(i);
        let i2 = self.1.remaining(i1);
        let i3 = self.2.remaining(i2);
        let i4 = self.3.remaining(i3);
        let i5 = self.4.remaining(i4);
        let i6 = self.5.remaining(i5);
        let i7 = self.6.remaining(i6);
        let i8 = self.7.remaining(i7);
        let i9 = self.8.remaining(i8);
        let i10 = self.9.remaining(i9);
        &&& self.0.produces(i, o.0)
        &&& self.1.produces(i1, o.1)
        &&& self.2.produces(i2, o.2)
        &&& self.3.produces(i3, o.3)
        &&& self.4.produces(i4, o.4)
        &&& self.5.produces(i5, o.5)
        &&& self.6.produces(i6, o.6)
        &&& self.7.produces(i7, o.7)
        &&& self.8.produces(i8, o.8)
        &&& self.9.produces(i9, o.9)
        &&& self.10.produces(i10, o.10)
    }

    /// The first failing component's outcome, unchanged.
    open spec fn failure(&self, i: I) -> ParseErr<E> {
        let i1 = self.0.remaining(i);
        let i2 = self.1.remaining(i1);
        let i3 = self.2.remaining(i2);
        let i4 = self.3.remaining(i3);
        let i5 = self.4.remaining(i4);
        let i6 = self.5.remaining(i5);
        let i7 = self.6.remaining(i6);
        let i8 = self.7.remaining(i7);
        let i9 = self.8.remaining(i8);
        let i10 = self.9.remaining(i9);
        if !self.0.succeeds(i) {
            self.0.failure(i)
        } else if !self.1.succeeds(i1) {
            self.1.failure(i1)
        } else if !self.2.succeeds(i2) {
            self.2.failure(i2)
        } else if !self.3.succeeds(i3) {
            self.3.failure(i3)
        } else if !self.4.succeeds(i4) {
            self.4.failure(i4)
        } else if !self.5.succeeds(i5) {
            self.5.failure(i5)
        } else if !self.6.succeeds(i6) {
            self.6.failure(i6)
        } else if !self.7.succeeds(i7) {
            self.7.failure(i7)
        } else if !self.8.succeeds(i8) {
            self.8.failure(i8)
        } else if !self.9.succeeds(i9) {
            self.9.failure(i9)
        } else {
            self.10.failure(i10)
        }
    }

    /// Fail-fast: when component `k` is the first to fail, the
    /// components after position `k` are never run.
    open spec fn untouched_on_failure(&self, post: Self, i: I) -> bool {
        let i1 = self.0.remaining(i);
        let i2 = self.1.remaining(i1);
        let i3 = self.2.remaining(i2);
        let i4 = self.3.remaining(i3);
        let i5 = self.4.remaining(i4);
        let i6 = self.5.remaining(i5);
        let i7 = self.6.remaining(i6);
        let i8 = self.7.remaining(i7);
        let i9 = self.8.remaining(i8);
        &&& !self.0.succeeds(i) ==> post.1 == self.1 && post.2 == self.2 && post.3 == self.3 && post.4 == self.4 && post.5 == self.5 && post.6 == self.6 && post.7 == self.7 && post.8 == self.8 && post.9 == self.9 && post.10 == self.10
        &&& self.0.succeeds(i) && !self.1.succeeds(i1) ==> post.2 == self.2 && post.3 == self.3 && post.4 == self.4 && post.5 == self.5 && post.6 == self.6 && post.7 == self.7 && post.8 == self.8 && post.9 == self.9 && post.10 == self.10
        &&& self.0.succeeds(i) && self.1.succeeds(i1) && !self.2.succeeds(i2) ==> post.3 == self.3 && post.4 == self.4 && post.5 == self.5 && post.6 == self.6 && post.7 == self.7 && post.8 == self.8 && post.9 == self.9 && post.10 == self.10
        &&& self.0.succeeds(i) && self.1.succeeds(i1) && self.2.succeeds(i2) && !self.3.succeeds(i3) ==> post.4 == self.4 && post.5 == self.5 && post.6 == self.6 && post.7 == self.7 && post.8 == self.8 && post.9 == self.9 && post.10 == self.10
        &&& self.0.succeeds(i) && self.1.succeeds(i1) && self.2.succeeds(i2) && self.3.succeeds(i3) && !self.4.succeeds(i4) ==> post.5 == self.5 && post.6 == self.6 && post.7 == self.7 && post.8 == self.8 && post.9 == self.9 && post.10 == self.10
        &&& self.0.succeeds(i) && self.1.succeeds(i1) && self.2.succeeds(i2) && self.3.succeeds(i3) && self.4.succeeds(i4) && !self.5.succeeds(i5) ==> post.6 == self.6 && post.7 == self.7 && post.8 == self.8 && post.9 == self.9 && post.10 == self.10
        &&& self.0.succeeds(i) && self.1.succeeds(i1) && self.2.succeeds(i2) && self.3.succeeds(i3) && self.4.succeeds(i4) && self.5.succeeds(i5) && !self.6.succeeds(i6) ==> post.7 == self.7 && post.8 == self.8 && post.9 == self.9 && post.10 == self.10
        &&& self.0.succeeds(i) && self.1.succeeds(i1) && self.2.succeeds(i2) && self.3.succeeds(i3) && self.4.succeeds(i4) && self.5.succeeds(i5) && self.6.succeeds(i6) && !self.7.succeeds(i7) ==> post.8 == self.8 && post.9 == self.9 && post.10 == self.10
        &&& self.0.succeeds(i) && self.1.succeeds(i1) && self.2.succeeds(i2) && self.3.succeeds(i3) && self.4.succeeds(i4) && self.5.succeeds(i5) && self.6.succeeds(i6) && self.7.succeeds(i7) && !self.8.succeeds(i8) ==> post.9 == self.9 && post.10 == self.10
        &&& self.0.succeeds(i) && self.1.succeeds(i1) && self.2.succeeds(i2) && self.3.succeeds(i3) && self.4.succeeds(i4) && self.5.succeeds(i5) && self.6.succeeds(i6) && self.7.succeeds(i7) && self.8.succeeds(i8) && !self.9.succeeds(i9) ==> post.10 == self.10
    }

    proof fn remaining_no_longer(&self, i: I) {
        self.0.remaining_no_longer(i);
        let i1 = self.0.remaining(i);
        self.1.remaining_no_longer(i1);
        let i2 = self.1.remaining(i1);
        self.2.remaining_no_longer(i2);
        let i3 = self.2.remaining(i2);
        self.3.remaining_no_longer(i3);
        let i4 = self.3.remaining(i3);
        self.4.remaining_no_longer(i4);
        let i5 = self.4.remaining(i4);
        self.5.remaining_no_longer(i5);
        let i6 = self.5.remaining(i5);
        self.6.remaining_no_longer(i6);
        let i7 = self.6.remaining(i6);
        self.7.remaining_no_longer(i7);
        let i8 = self.7.remaining(i7);
        self.8.remaining_no_longer(i8);
        let i9 = self.8.remaining(i8);
        self.9.remaining_no_longer(i9);
        let i10 = self.9.remaining(i9);
        self.10.remaining_no_longer(i10);
    }

    fn parse(&mut self, i: I) -> (r: IResult<I, (FnA::Output, FnB::Output, FnC::Output, FnD::Output, FnE::Output, FnF::Output, FnG::Output, FnH::Output, FnI::Output, FnJ::Output, FnK::Output), E>) {
        match self.0.parse(i) {
            Err(e) => Err(e),
            Ok((i1, o0)) => {
                match self.1.parse(i1) {
                    Err(e) => Err(e),
                    Ok((i2, o1)) => {
                        match self.2.parse(i2) {
                            Err(e) => Err(e),
                            Ok((i3, o2)) => {
                                match self.3.parse(i3) {
                                    Err(e) => Err(e),
                                    Ok((i4, o3)) => {
                                        match self.4.parse(i4) {
                                            Err(e) => Err(e),
                                            Ok((i5, o4)) => {
                                                match self.5.parse(i5) {
                                                    Err(e) => Err(e),
                                                    Ok((i6, o5)) => {
                                                        match self.6.parse(i6) {
                                                            Err(e) => Err(e),
                                                            Ok((i7, o6)) => {
                                                                match self.7.parse(i7) {
                                                                    Err(e) => Err(e),
                                                                    Ok((i8, o7)) => {
                                                                        match self.8.parse(i8) {
                                                                            Err(e) => Err(e),
                                                                            Ok((i9, o8)) => {
                                                                                match self.9.parse(i9) {
                                                                                    Err(e) => Err(e),
                                                                                    Ok((i10, o9)) => {
                                                                                        match self.10.parse(i10) {
                                                                                            Err(e) => Err(e),
                                                                                            Ok((i11, o10)) => Ok((i11, (o0, o1, o2, o3, o4, o5, o6, o7, o8, o9, o10))),
                                                                                        }
                                                                                    },
                                                                                }
                                                                            },
                                                                        }
                                                                    },
                                                                }
                                                            },
                                                        }
                                                    },
                                                }
                                            },
                                        }
                                    },
                                }
                            },
                        }
                    },
                }
            },
        }
    }
}

/// Runs the 12 parsers in index order, each on what its predecessor
/// left, and yields their outputs as a 12-tuple.
impl<
    I: InputLength,
    E,
    FnA: Parser<I, E>,
    FnB: Parser<I, E>,
    FnC: Parser<I, E>,
    FnD: Parser<I, E>,
    FnE: Parser<I, E>,
    FnF: Parser<I, E>,
    FnG: Parser<I, E>,
    FnH: Parser<I, E>,
    FnI: Parser<I, E>,
    FnJ: Parser<I, E>,
    FnK: Parser<I, E>,
    FnL: Parser<I, E>,
> Tuple<I, E> for (FnA, FnB, FnC, FnD, FnE, FnF, FnG, FnH, FnI, FnJ, FnK, FnL) {
    type Output = (FnA::Output, FnB::Output, FnC::Output, FnD::Output, FnE::Output, FnF::Output, FnG::Output, FnH::Output, FnI::Output, FnJ::Output, FnK::Output, FnL::Output);

    /// Every component succeeds, each on what its predecessor left.
    open spec fn succeeds(&self, i: I) -> bool {
        let i1 = self.0.remaining(i);
        let i2 = self.1.remaining(i1);
        let i3 = self.2.remaining(i2);
        let i4 = self.3.remaining(i3);
        let i5 = self.4.remaining(i4);
        let i6 = self.5.remaining(i5);
        let i7 = self.6.remaining(i6);
        let i8 = self.7.remaining(i7);
        let i9 = self.8.remaining(i8);
        let i10 = self.9.remaining(i9);
        let i11 = self.10.remaining(i10);
        &&& self.0.succeeds(i)
        &&& self.1.succeeds(i1)
        &&& self.2.succeeds(i2)
        &&& self.3.succeeds(i3)
        &&& self.4.succeeds(i4)
        &&& self.5.succeeds(i5)
        &&& self.6.succeeds(i6)
        &&& self.7.succeeds(i7)
        &&& self.8.succeeds(i8)
        &&& self.9.succeeds(i9)
        &&& self.10.succeeds(i10)
        &&& self.11.succeeds(i11)
    }

    /// What the last component leaves.
    open spec fn remaining(&self, i: I) -> I {
        let i1 = self.0.remaining(i);
        let i2 = self.1.remaining(i1);
        let i3 = self.2.remaining(i2);
        let i4 = self.3.remaining(i3);
        let i5 = self.4.remaining(i4);
        let i6 = self.5.remaining(i5);
        let i7 = self.6.remaining(i6);
        let i8 = self.7.remaining(i7);
        let i9 = self.8.remaining(i8);
        let i10 = self.9.remaining(i9);
        let i11 = self.10.remaining(i10);
        self.11.remaining(i11)
    }

    /// Position `k` holds an output of parser `k`, run on the cursor
    /// left by parser `k - 1`.
    open spec fn produces(&self, i: I, o: (FnA::Output, FnB::Output, FnC::Output, FnD::Output, FnE::Output, FnF::Output, FnG::Output, FnH::Output, FnI::Output, FnJ::Output, FnK::Output, FnL::Output)) -> bool {
        let i1 = self.0.remaining(i);
        let i2 = self.1.remaining(i1);
        let i3 = self.2.remaining(i2);
        let i4 = self.3.remaining(i3);
        let i5 = self.4.remaining(i4);
        let i6 = self.5.remaining(i5);
        let i7 = self.6.remaining(i6);
        let i8 = self.7.remaining(i7);
        let i9 = self.8.remaining(i8);
        let i10 = self.9.remaining(i9);
        let i11 = self.10.remaining(i10);
        &&& self.0.produces(i, o.0)
        &&& self.1.produces(i1, o.1)
        &&& self.2.produces(i2, o.2)
        &&& self.3.produces(i3, o.3)
        &&& self.4.produces(i4, o.4)
        &&& self.5.produces(i5, o.5)
        &&& self.6.produces(i6, o.6)
        &&& self.7.produces(i7, o.7)
        &&& self.8.produces(i8, o.8)
        &&& self.9.produces(i9, o.9)
        &&& self.10.produces(i10, o.10)
        &&& self.11.produces(i11, o.11)
    }

    /// The first failing component's outcome, unchanged.
    open spec fn failure(&self, i: I) -> ParseErr<E> {
        let i1 = self.0.remaining(i);
        let i2 = self.1.remaining(i1);
        let i3 = self.2.remaining(i2);
        let i4 = self.3.remaining(i3);
        let i5 = self.4.remaining(i4);
        let i6 = self.5.remaining(i5);
        let i7 = self.6.remaining(i6);
        let i8 = self.7.remaining(i7);
        let i9 = self.8.remaining(i8);
        let i10 = self.9.remaining(i9);
        let i11 = self.10.remaining(i10);
        if !self.0.succeeds(i) {
            self.0.failure(i)
        } else if !self.1.succeeds(i1) {
            self.1.failure(i1)
        } else if !self.2.succeeds(i2) {
            self.2.failure(i2)
        } else if !self.3.succeeds(i3) {
            self.3.failure(i3)
        } else if !self.4.succeeds(i4) {
            self.4.failure(i4)
        } else if !self.5.succeeds(i5) {
            self.5.failure(i5)
        } else if !self.6.succeeds(i6) {
            self.6.failure(i6)
        } else if !self.7.succeeds(i7) {
            self.7.failure(i7)
        } else if !self.8.succeeds(i8) {
            self.8.failure(i8)
        } else if !self.9.succeeds(i9) {
            self.9.failure(i9)
        } else if !self.10.succeeds(i10) {
            self.10.failure(i10)
        } else {
            self.11.failure(i11)
        }
    }

    /// Fail-fast: when component `k` is the first to fail, the
    /// components after position `k` are never run.
    open spec fn untouched_on_failure(&self, post: Self, i: I) -> bool {
        let i1 = self.0.remaining(i);
        let i2 = self.1.remaining(i1);
        let i3 = self.2.remaining(i2);
        let i4 = self.3.remaining(i3);
        let i5 = self.4.remaining(i4);
        let i6 = self.5.remaining(i5);
        let i7 = self.6.remaining(i6);
        let i8 = self.7.remaining(i7);
        let i9 = self.8.remaining(i8);
        let i10 = self.9.remaining(i9);
        &&& !self.0.succeeds(i) ==> post.1 == self.1 && post.2 == self.2 && post.3 == self.3 && post.4 == self.4 && post.5 == self.5 && post.6 == self.6 && post.7 == self.7 && post.8 == self.8 && post.9 == self.9 && post.10 == self.10 && post.11 == self.11
        &&& self.0.succeeds(i) && !self.1.succeeds(i1) ==> post.2 == self.2 && post.3 == self.3 && post.4 == self.4 && post.5 == self.5 && post.6 == self.6 && post.7 == self.7 && post.8 == self.8 && post.9 == self.9 && post.10 == self.10 && post.11 == self.11
        &&& self.0.succeeds(i) && self.1.succeeds(i1) && !self.2.succeeds(i2) ==> post.3 == self.3 && post.4 == self.4 && post.5 == self.5 && post.6 == self.6 && post.7 == self.7 && post.8 == self.8 && post.9 == self.9 && post.10 == self.10 && post.11 == self.11
        &&& self.0.succeeds(i) && self.1.succeeds(i1) && self.2.succeeds(i2) && !self.3.succeeds(i3) ==> post.4 == self.4 && post.5 == self.5 && post.6 == self.6 && post.7 == self.7 && post.8 == self.8 && post.9 == self.9 && post.10 == self.10 && post.11 == self.11
        &&& self.0.succeeds(i) && self.1.succeeds(i1) && self.2.succeeds(i2) && self.3.succeeds(i3) && !self.4.succeeds(i4) ==> post.5 == self.5 && post.6 == self.6 && post.7 == self.7 && post.8 == self.8 && post.9 == self.9 && post.10 == self.10 && post.11 == self.11
        &&& self.0.succeeds(i) && self.1.succeeds(i1) && self.2.succeeds(i2) && self.3.succeeds(i3) && self.4.succeeds(i4) && !self.5.succeeds(i5) ==> post.6 == self.6 && post.7 == self.7 && post.8 == self.8 && post.9 == self.9 && post.10 == self.10 && post.11 == self.11
        &&& self.0.succeeds(i) && self.1.succeeds(i1) && self.2.succeeds(i2) && self.3.succeeds(i3) && self.4.succeeds(i4) && self.5.succeeds(i5) && !self.6.succeeds(i6) ==> post.7 == self.7 && post.8 == self.8 && post.9 == self.9 && post.10 == self.10 && post.11 == self.11
        &&& self.0.succeeds(i) && self.1.succeeds(i1) && self.2.succeeds(i2) && self.3.succeeds(i3) && self.4.succeeds(i4) && self.5.succeeds(i5) && self.6.succeeds(i6) && !self.7.succeeds(i7) ==> post.8 == self.8 && post.9 == self.9 && post.10 == self.10 && post.11 == self.11
        &&& self.0.succeeds(i) && self.1.succeeds(i1) && self.2.succeeds(i2) && self.3.succeeds(i3) && self.4.succeeds(i4) && self.5.succeeds(i5) && self.6.succeeds(i6) && self.7.succeeds(i7) && !self.8.succeeds(i8) ==> post.9 == self.9 && post.10 == self.10 && post.11 == self.11
        &&& self.0.succeeds(i) && self.1.succeeds(i1) && self.2.succeeds(i2) && self.3.succeeds(i3) && self.4.succeeds(i4) && self.5.succeeds(i5) && self.6.succeeds(i6) && self.7.succeeds(i7) && self.8.succeeds(i8) && !self.9.succeeds(i9) ==> post.10 == self.10 && post.11 == self.11
        &&& self.0.succeeds(i) && self.1.succeeds(i1) && self.2.succeeds(i2) && self.3.succeeds(i3) && self.4.succeeds(i4) && self.5.succeeds(i5) && self.6.succeeds(i6) && self.7.succeeds(i7) && self.8.succeeds(i8) && self.9.succeeds(i9) && !self.10.succeeds(i10) ==> post.11 == self.11
    }

    proof fn remaining_no_longer(&self, i: I) {
        self.0.remaining_no_longer(i);
        let i1 = self.0.remaining(i);
        self.1.remaining_no_longer(i1);
        let i2 = self.1.remaining(i1);
        self.2.remaining_no_longer(i2);
        let i3 = self.2.remaining(i2);
        self.3.remaining_no_longer(i3);
        let i4 = self.3.remaining(i3);
        self.4.remaining_no_longer(i4);
        let i5 = self.4.remaining(i4);
        self.5.remaining_no_longer(i5);
        let i6 = self.5.remaining(i5);
        self.6.remaining_no_longer(i6);
        let i7 = self.6.remaining(i6);
        self.7.remaining_no_longer(i7);
        let i8 = self.7.remaining(i7);
        self.8.remaining_no_longer(i8);
        let i9 = self.8.remaining(i8);
        self.9.remaining_no_longer(i9);
        let i10 = self.9.remaining(i9);
        self.10.remaining_no_longer(i10);
        let i11 = self.10.remaining(i10);
        self.11.remaining_no_longer(i11);
    }

    fn parse(&mut self, i: I) -> (r: IResult<I, (FnA::Output, FnB::Output, FnC::Output, FnD::Output, FnE::Output, FnF::Output, FnG::Output, FnH::Output, FnI::Output, FnJ::Output, FnK::Output, FnL::Output), E>) {
        match self.0.parse(i) {
            Err(e) => Err(e),
            Ok((i1, o0)) => {
                match self.1.parse(i1) {
                    Err(e) => Err(e),
                    Ok((i2, o1)) => {
                        match self.2.parse(i2) {
                            Err(e) => Err(e),
                            Ok((i3, o2)) => {
                                match self.3.parse(i3) {
                                    Err(e) => Err(e),
                                    Ok((i4, o3)) => {
                                        match self.4.parse(i4) {
                                            Err(e) => Err(e),
                                            Ok((i5, o4)) => {
                                                match self.5.parse(i5) {
                                                    Err(e) => Err(e),
                                                    Ok((i6, o5)) => {
                                                        match self.6.parse(i6) {
                                                            Err(e) => Err(e),
                                                            Ok((i7, o6)) => {
                                                                match self.7.parse(i7) {
                                                                    Err(e) => Err(e),
                                                                    Ok((i8, o7)) => {
                                                                        match self.8.parse(i8) {
                                                                            Err(e) => Err(e),
                                                                            Ok((i9, o8)) => {
                                                                                match self.9.parse(i9) {
                                                                                    Err(e) => Err(e),
                                                                                    Ok((i10, o9)) => {
                                                                                        match self.10.parse(i10) {
                                                                                            Err(e) => Err(e),
                                                                                            Ok((i11, o10)) => {
                                                                                                match self.11.parse(i11) {
                                                                                                    Err(e) => Err(e),
                                                                                                    Ok((i12, o11)) => Ok((i12, (o0, o1, o2, o3, o4, o5, o6, o7, o8, o9, o10, o11))),
                                                                                                }
                                                                                            },
                                                                                        }
                                                                                    },
                                                                                }
                                                                            },
                                                                        }
                                                                    },
                                                                }
                                                            },
                                                        }
                                                    },
                                                }
                                            },
                                        }
                                    },
                                }
                            },
                        }
                    },
                }
            },
        }
    }
}

/// Runs the 13 parsers in index order, each on what its predecessor
/// left, and yields their outputs as a 13-tuple.
impl<
    I: InputLength,
    E,
    FnA: Parser<I, E>,
    FnB: Parser<I, E>,
    FnC: Parser<I, E>,
    FnD: Parser<I, E>,
    FnE: Parser<I, E>,
    FnF: Parser<I, E>,
    FnG: Parser<I, E>,
    FnH: Parser<I, E>,
    FnI: Parser<I, E>,
    FnJ: Parser<I, E>,
    FnK: Parser<I, E>,
    FnL: Parser<I, E>,
    FnM: Parser<I, E>,
> Tuple<I, E> for (FnA, FnB, FnC, FnD, FnE, FnF, FnG, FnH, FnI, FnJ, FnK, FnL, FnM) {
    type Output = (FnA::Output, FnB::Output, FnC::Output, FnD::Output, FnE::Output, FnF::Output, FnG::Output, FnH::Output, FnI::Output, FnJ::Output, FnK::Output, FnL::Output, FnM::Output);

    /// Every component succeeds, each on what its predecessor left.
    open spec fn succeeds(&self, i: I) -> bool {
        let i1 = self.0.remaining(i);
        let i2 = self.1.remaining(i1);
        let i3 = self.2.remaining(i2);
        let i4 = self.3.remaining(i3);
        let i5 = self.4.remaining(i4);
        let i6 = self.5.remaining(i5);
        let i7 = self.6.remaining(i6);
        let i8 = self.7.remaining(i7);
        let i9 = self.8.remaining(i8);
        let i10 = self.9.remaining(i9);
        let i11 = self.10.remaining(i10);
        let i12 = self.11.remaining(i11);
        &&& self.0.succeeds(i)
        &&& self.1.succeeds(i1)
        &&& self.2.succeeds(i2)
        &&& self.3.succeeds(i3)
        &&& self.4.succeeds(i4)
        &&& self.5.succeeds(i5)
        &&& self.6.succeeds(i6)
        &&& self.7.succeeds(i7)
        &&& self.8.succeeds(i8)
        &&& self.9.succeeds(i9)
        &&& self.10.succeeds(i10)
        &&& self.11.succeeds(i11)
        &&& self.12.succeeds(i12)
    }

    /// What the last component leaves.
    open spec fn remaining(&self, i: I) -> I {
        let i1 = self.0.remaining(i);
        let i2 = self.1.remaining(i1);
        let i3 = self.2.remaining(i2);
        let i4 = self.3.remaining(i3);
        let i5 = self.4.remaining(i4);
        let i6 = self.5.remaining(i5);
        let i7 = self.6.remaining(i6);
        let i8 = self.7.remaining(i7);
        let i9 = self.8.remaining(i8);
        let i10 = self.9.remaining(i9);
        let i11 = self.10.remaining(i10);
        let i12 = self.11.remaining(i11);
        self.12.remaining(i12)
    }

    /// Position `k` holds an output of parser `k`, run on the cursor
    /// left by parser `k - 1`.
    open spec fn produces(&self, i: I, o: (FnA::Output, FnB::Output, FnC::Output, FnD::Output, FnE::Output, FnF::Output, FnG::Output, FnH::Output, FnI::Output, FnJ::Output, FnK::Output, FnL::Output, FnM::Output)) -> bool {
        let i1 = self.0.remaining(i);
        let i2 = self.1.remaining(i1);
        let i3 = self.2.remaining(i2);
        let i4 = self.3.remaining(i3);
        let i5 = self.4.remaining(i4);
        let i6 = self.5.remaining(i5);
        let i7 = self.6.remaining(i6);
        let i8 = self.7.remaining(i7);
        let i9 = self.8.remaining(i8);
        let i10 = self.9.remaining(i9);
        let i11 = self.10.remaining(i10);
        let i12 = self.11.remaining(i11);
        &&& self.0.produces(i, o.0)
        &&& self.1.produces(i1, o.1)
        &&& self.2.produces(i2, o.2)
        &&& self.3.produces(i3, o.3)
        &&& self.4.produces(i4, o.4)
        &&& self.5.produces(i5, o.5)
        &&& self.6.produces(i6, o.6)
        &&& self.7.produces(i7, o.7)
        &&& self.8.produces(i8, o.8)
        &&& self.9.produces(i9, o.9)
        &&& self.10.produces(i10, o.10)
        &&& self.11.produces(i11, o.11)
        &&& self.12.produces(i12, o.12)
    }

    /// The first failing component's outcome, unchanged.
    open spec fn failure(&self, i: I) -> ParseErr<E> {
        let i1 = self.0.remaining(i);
        let i2 = self.1.remaining(i1);
        let i3 = self.2.remaining(i2);
        let i4 = self.3.remaining(i3);
        let i5 = self.4.remaining(i4);
        let i6 = self.5.remaining(i5);
        let i7 = self.6.remaining(i6);
        let i8 = self.7.remaining(i7);
        let i9 = self.8.remaining(i8);
        let i10 = self.9.remaining(i9);
        let i11 = self.10.remaining(i10);
        let i12 = self.11.remaining(i11);
        if !self.0.succeeds(i) {
            self.0.failure(i)
        } else if !self.1.succeeds(i1) {
            self.1.failure(i1)
        } else if !self.2.succeeds(i2) {
            self.2.failure(i2)
        } else if !self.3.succeeds(i3) {
            self.3.failure(i3)
        } else if !self.4.succeeds(i4) {
            self.4.failure(i4)
        } else if !self.5.succeeds(i5) {
            self.5.failure(i5)
        } else if !self.6.succeeds(i6) {
            self.6.failure(i6)
        } else if !self.7.succeeds(i7) {
            self.7.failure(i7)
        } else if !self.8.succeeds(i8) {
            self.8.failure(i8)
        } else if !self.9.succeeds(i9) {
            self.9.failure(i9)
        } else if !self.10.succeeds(i10) {
            self.10.failure(i10)
        } else if !self.11.succeeds(i11) {
            self.11.failure(i11)
        } else {
            self.12.failure(i12)
        }
    }

    /// Fail-fast: when component `k` is the first to fail, the
    /// components after position `k` are never run.
    open spec fn untouched_on_failure(&self, post: Self, i: I) -> bool {
        let i1 = self.0.remaining(i);
        let i2 = self.1.remaining(i1);
        let i3 = self.2.remaining(i2);
        let i4 = self.3.remaining(i3);
        let i5 = self.4.remaining(i4);
        let i6 = self.5.remaining(i5);
        let i7 = self.6.remaining(i6);
        let i8 = self.7.remaining(i7);
        let i9 = self.8.remaining(i8);
        let i10 = self.9.remaining(i9);
        let i11 = self.10.remaining(i10);
        &&& !self.0.succeeds(i) ==> post.1 == self.1 && post.2 == self.2 && post.3 == self.3 && post.4 == self.4 && post.5 == self.5 && post.6 == self.6 && post.7 == self.7 && post.8 == self.8 && post.9 == self.9 && post.10 == self.10 && post.11 == self.11 && post.12 == self.12
        &&& self.0.succeeds(i) && !self.1.succeeds(i1) ==> post.2 == self.2 && post.3 == self.3 && post.4 == self.4 && post.5 == self.5 && post.6 == self.6 && post.7 == self.7 && post.8 == self.8 && post.9 == self.9 && post.10 == self.10 && post.11 == self.11 && post.12 == self.12
        &&& self.0.succeeds(i) && self.1.succeeds(i1) && !self.2.succeeds(i2) ==> post.3 == self.3 && post.4 == self.4 && post.5 == self.5 && post.6 == self.6 && post.7 == self.7 && post.8 == self.8 && post.9 == self.9 && post.10 == self.10 && post.11 == self.11 && post.12 == self.12
        &&& self.0.succeeds(i) && self.1.succeeds(i1) && self.2.succeeds(i2) && !self.3.succeeds(i3) ==> post.4 == self.4 && post.5 == self.5 && post.6 == self.6 && post.7 == self.7 && post.8 == self.8 && post.9 == self.9 && post.10 == self.10 && post.11 == self.11 && post.12 == self.12
        &&& self.0.succeeds(i) && self.1.succeeds(i1) && self.2.succeeds(i2) && self.3.succeeds(i3) && !self.4.succeeds(i4) ==> post.5 == self.5 && post.6 == self.6 && post.7 == self.7 && post.8 == self.8 && post.9 == self.9 && post.10 == self.10 && post.11 == self.11 && post.12 == self.12
        &&& self.0.succeeds(i) && self.1.succeeds(i1) && self.2.succeeds(i2) && self.3.succeeds(i3) && self.4.succeeds(i4) && !self.5.succeeds(i5) ==> post.6 == self.6 && post.7 == self.7 && post.8 == self.8 && post.9 == self.9 && post.10 == self.10 && post.11 == self.11 && post.12 == self.12
        &&& self.0.succeeds(i) && self.1.succeeds(i1) && self.2.succeeds(i2) && self.3.succeeds(i3) && self.4.succeeds(i4) && self.5.succeeds(i5) && !self.6.succeeds(i6) ==> post.7 == self.7 && post.8 == self.8 && post.9 == self.9 && post.10 == self.10 && post.11 == self.11 && post.12 == self.12
        &&& self.0.succeeds(i) && self.1.succeeds(i1) && self.2.succeeds(i2) && self.3.succeeds(i3) && self.4.succeeds(i4) && self.5.succeeds(i5) && self.6.succeeds(i6) && !self.7.succeeds(i7) ==> post.8 == self.8 && post.9 == self.9 && post.10 == self.10 && post.11 == self.11 && post.12 == self.12
        &&& self.0.succeeds(i) && self.1.succeeds(i1) && self.2.succeeds(i2) && self.3.succeeds(i3) && self.4.succeeds(i4) && self.5.succeeds(i5) && self.6.succeeds(i6) && self.7.succeeds(i7) && !self.8.succeeds(i8) ==> post.9 == self.9 && post.10 == self.10 && post.11 == self.11 && post.12 == self.12
        &&& self.0.succeeds(i) && self.1.succeeds(i1) && self.2.succeeds(i2) && self.3.succeeds(i3) && self.4.succeeds(i4) && self.5.succeeds(i5) && self.6.succeeds(i6) && self.7.succeeds(i7) && self.8.succeeds(i8) && !self.9.succeeds(i9) ==> post.10 == self.10 && post.11 == self.11 && post.12 == self.12
        &&& self.0.succeeds(i) && self.1.succeeds(i1) && self.2.succeeds(i2) && self.3.succeeds(i3) && self.4.succeeds(i4) && self.5.succeeds(i5) && self.6.succeeds(i6) && self.7.succeeds(i7) && self.8.succeeds(i8) && self.9.succeeds(i9) && !self.10.succeeds(i10) ==> post.11 == self.11 && post.12 == self.12
        &&& self.0.succeeds(i) && self.1.succeeds(i1) && self.2.succeeds(i2) && self.3.succeeds(i3) && self.4.succeeds(i4) && self.5.succeeds(i5) && self.6.succeeds(i6) && self.7.succeeds(i7) && self.8.succeeds(i8) && self.9.succeeds(i9) && self.10.succeeds(i10) && !self.11.succeeds(i11) ==> post.12 == self.12
    }

    proof fn remaining_no_longer(&self, i: I) {
        self.0.remaining_no_longer(i);
        let i1 = self.0.remaining(i);
        self.1.remaining_no_longer(i1);
        let i2 = self.1.remaining(i1);
        self.2.remaining_no_longer(i2);
        let i3 = self.2.remaining(i2);
        self.3.remaining_no_longer(i3);
        let i4 = self.3.remaining(i3);
        self.4.remaining_no_longer(i4);
        let i5 = self.4.remaining(i4);
        self.5.remaining_no_longer(i5);
        let i6 = self.5.remaining(i5);
        self.6.remaining_no_longer(i6);
        let i7 = self.6.remaining(i6);
        self.7.remaining_no_longer(i7);
        let i8 = self.7.remaining(i7);
        self.8.remaining_no_longer(i8);
        let i9 = self.8.remaining(i8);
        self.9.remaining_no_longer(i9);
        let i10 = self.9.remaining(i9);
        self.10.remaining_no_longer(i10);
        let i11 = self.10.remaining(i10);
        self.11.remaining_no_longer(i11);
        let i12 = self.11.remaining(i11);
        self.12.remaining_no_longer(i12);
    }

    fn parse(&mut self, i: I) -> (r: IResult<I, (FnA::Output, FnB::Output, FnC::Output, FnD::Output, FnE::Output, FnF::Output, FnG::Output, FnH::Output, FnI::Output, FnJ::Output, FnK::Output, FnL::Output, FnM::Output), E>) {
        match self.0.parse(i) {
            Err(e) => Err(e),
            Ok((i1, o0)) => {
                match self.1.parse(i1) {
                    Err(e) => Err(e),
                    Ok((i2, o1)) => {
                        match self.2.parse(i2) {
                            Err(e) => Err(e),
                            Ok((i3, o2)) => {
                                match self.3.parse(i3) {
                                    Err(e) => Err(e),
                                    Ok((i4, o3)) => {
                                        match self.4.parse(i4) {
                                            Err(e) => Err(e),
                                            Ok((i5, o4)) => {
                                                match self.5.parse(i5) {
                                                    Err(e) => Err(e),
                                                    Ok((i6, o5)) => {
                                                        match self.6.parse(i6) {
                                                            Err(e) => Err(e),
                                                            Ok((i7, o6)) => {
                                                                match self.7.parse(i7) {
                                                                    Err(e) => Err(e),
                                                                    Ok((i8, o7)) => {
                                                                        match self.8.parse(i8) {
                                                                            Err(e) => Err(e),
                                                                            Ok((i9, o8)) => {
                                                                                match self.9.parse(i9) {
                                                                                    Err(e) => Err(e),
                                                                                    Ok((i10, o9)) => {
                                                                                        match self.10.parse(i10) {
                                                                                            Err(e) => Err(e),
                                                                                            Ok((i11, o10)) => {
                                                                                                match self.11.parse(i11) {
                                                                                                    Err(e) => Err(e),
                                                                                                    Ok((i12, o11)) => {
                                                                                                        match self.12.parse(i12) {
                                                                                                            Err(e) => Err(e),
                                                                                                            Ok((i13, o12)) => Ok((i13, (o0, o1, o2, o3, o4, o5, o6, o7, o8, o9, o10, o11, o12))),
                                                                                                        }
                                                                                                    },
                                                                                                }
                                                                                            },
                                                                                        }
                                                                                    },
                                                                                }
                                                                            },
                                                                        }
                                                                    },
                                                                }
                                                            },
                                                        }
                                                    },
                                                }
                                            },
                                        }
                                    },
                                }
                            },
                        }
                    },
                }
            },
        }
    }
}

/// Runs the 14 parsers in index order, each on what its predecessor
/// left, and yields their outputs as a 14-tuple.
impl<
    I: InputLength,
    E,
    FnA: Parser<I, E>,
    FnB: Parser<I, E>,
    FnC: Parser<I, E>,
    FnD: Parser<I, E>,
    FnE: Parser<I, E>,
    FnF: Parser<I, E>,
    FnG: Parser<I, E>,
    FnH: Parser<I, E>,
    FnI: Parser<I, E>,
    FnJ: Parser<I, E>,
    FnK: Parser<I, E>,
    FnL: Parser<I, E>,
    FnM: Parser<I, E>,
    FnN: Parser<I, E>,
> Tuple<I, E> for (FnA, FnB, FnC, FnD, FnE, FnF, FnG, FnH, FnI, FnJ, FnK, FnL, FnM, FnN) {
    type Output = (FnA::Output, FnB::Output, FnC::Output, FnD::Output, FnE::Output, FnF::Output, FnG::Output, FnH::Output, FnI::Output, FnJ::Output, FnK::Output, FnL::Output, FnM::Output, FnN::Output);

    /// Every component succeeds, each on what its predecessor left.
    open spec fn succeeds(&self, i: I) -> bool {
        let i1 = self.0.remaining(i);
        let i2 = self.1.remaining(i1);
        let i3 = self.2.remaining(i2);
        let i4 = self.3.remaining(i3);
        let i5 = self.4.remaining(i4);
        let i6 = self.5.remaining(i5);
        let i7 = self.6.remaining(i6);
        let i8 = self.7.remaining(i7);
        let i9 = self.8.remaining(i8);
        let i10 = self.9.remaining(i9);
        let i11 = self.10.remaining(i10);
        let i12 = self.11.remaining(i11);
        let i13 = self.12.remaining(i12);
        &&& self.0.succeeds(i)
        &&& self.1.succeeds(i1)
        &&& self.2.succeeds(i2)
        &&& self.3.succeeds(i3)
        &&& self.4.succeeds(i4)
        &&& self.5.succeeds(i5)
        &&& self.6.succeeds(i6)
        &&& self.7.succeeds(i7)
        &&& self.8.succeeds(i8)
        &&& self.9.succeeds(i9)
        &&& self.10.succeeds(i10)
        &&& self.11.succeeds(i11)
        &&& self.12.succeeds(i12)
        &&& self.13.succeeds(i13)
    }

    /// What the last component leaves.
    open spec fn remaining(&self, i: I) -> I {
        let i1 = self.0.remaining(i);
        let i2 = self.1.remaining(i1);
        let i3 = self.2.remaining(i2);
        let i4 = self.3.remaining(i3);
        let i5 = self.4.remaining(i4);
        let i6 = self.5.remaining(i5);
        let i7 = self.6.remaining(i6);
        let i8 = self.7.remaining(i7);
        let i9 = self.8.remaining(i8);
        let i10 = self.9.remaining(i9);
        let i11 = self.10.remaining(i10);
        let i12 = self.11.remaining(i11);
        let i13 = self.12.remaining(i12);
        self.13.remaining(i13)
    }

    /// Position `k` holds an output of parser `k`, run on the cursor
    /// left by parser `k - 1`.
    open spec fn produces(&self, i: I, o: (FnA::Output, FnB::Output, FnC::Output, FnD::Output, FnE::Output, FnF::Output, FnG::Output, FnH::Output, FnI::Output, FnJ::Output, FnK::Output, FnL::Output, FnM::Output, FnN::Output)) -> bool {
        let i1 = self.0.remaining(i);
        let i2 = self.1.remaining(i1);
        let i3 = self.2.remaining(i2);
        let i4 = self.3.remaining(i3);
        let i5 = self.4.remaining(i4);
        let i6 = self.5.remaining(i5);
        let i7 = self.6.remaining(i6);
        let i8 = self.7.remaining(i7);
        let i9 = self.8.remaining(i8);
        let i10 = self.9.remaining(i9);
        let i11 = self.10.remaining(i10);
        let i12 = self.11.remaining(i11);
        let i13 = self.12.remaining(i12);
        &&& self.0.produces(i, o.0)
        &&& self.1.produces(i1, o.1)
        &&& self.2.produces(i2, o.2)
        &&& self.3.produces(i3, o.3)
        &&& self.4.produces(i4, o.4)
        &&& self.5.produces(i5, o.5)
        &&& self.6.produces(i6, o.6)
        &&& self.7.produces(i7, o.7)
        &&& self.8.produces(i8, o.8)
        &&& self.9.produces(i9, o.9)
        &&& self.10.produces(i10, o.10)
        &&& self.11.produces(i11, o.11)
        &&& self.12.produces(i12, o.12)
        &&& self.13.produces(i13, o.13)
    }

    /// The first failing component's outcome, unchanged.
    open spec fn failure(&self, i: I) -> ParseErr<E> {
        let i1 = self.0.remaining(i);
        let i2 = self.1.remaining(i1);
        let i3 = self.2.remaining(i2);
        let i4 = self.3.remaining(i3);
        let i5 = self.4.remaining(i4);
        let i6 = self.5.remaining(i5);
        let i7 = self.6.remaining(i6);
        let i8 = self.7.remaining(i7);
        let i9 = self.8.remaining(i8);
        let i10 = self.9.remaining(i9);
        let i11 = self.10.remaining(i10);
        let i12 = self.11.remaining(i11);
        let i13 = self.12.remaining(i12);
        if !self.0.succeeds(i) {
            self.0.failure(i)
        } else if !self.1.succeeds(i1) {
            self.1.failure(i1)
        } else if !self.2.succeeds(i2) {
            self.2.failure(i2)
        } else if !self.3.succeeds(i3) {
            self.3.failure(i3)
        } else if !self.4.succeeds(i4) {
            self.4.failure(i4)
        } else if !self.5.succeeds(i5) {
            self.5.failure(i5)
        } else if !self.6.succeeds(i6) {
            self.6.failure(i6)
        } else if !self.7.succeeds(i7) {
            self.7.failure(i7)
        } else if !self.8.succeeds(i8) {
            self.8.failure(i8)
        } else if !self.9.succeeds(i9) {
            self.9.failure(i9)
        } else if !self.10.succeeds(i10) {
            self.10.failure(i10)
        } else if !self.11.succeeds(i11) {
            self.11.failure(i11)
        } else if !self.12.succeeds(i12) {
            self.12.failure(i12)
        } else {
            self.13.failure(i13)
        }
    }

    /// Fail-fast: when component `k` is the first to fail, the
    /// components after position `k` are never run.
    open spec fn untouched_on_failure(&self, post: Self, i: I) -> bool {
        let i1 = self.0.remaining(i);
        let i2 = self.1.remaining(i1);
        let i3 = self.2.remaining(i2);
        let i4 = self.3.remaining(i3);
        let i5 = self.4.remaining(i4);
        let i6 = self.5.remaining(i5);
        let i7 = self.6.remaining(i6);
        let i8 = self.7.remaining(i7);
        let i9 = self.8.remaining(i8);
        let i10 = self.9.remaining(i9);
        let i11 = self.10.remaining(i10);
        let i12 = self.11.remaining(i11);
        &&& !self.0.succeeds(i) ==> post.1 == self.1 && post.2 == self.2 && post.3 == self.3 && post.4 == self.4 && post.5 == self.5 && post.6 == self.6 && post.7 == self.7 && post.8 == self.8 && post.9 == self.9 && post.10 == self.10 && post.11 == self.11 && post.12 == self.12 && post.13 == self.13
        &&& self.0.succeeds(i) && !self.1.succeeds(i1) ==> post.2 == self.2 && post.3 == self.3 && post.4 == self.4 && post.5 == self.5 && post.6 == self.6 && post.7 == self.7 && post.8 == self.8 && post.9 == self.9 && post.10 == self.10 && post.11 == self.11 && post.12 == self.12 && post.13 == self.13
        &&& self.0.succeeds(i) && self.1.succeeds(i1) && !self.2.succeeds(i2) ==> post.3 == self.3 && post.4 == self.4 && post.5 == self.5 && post.6 == self.6 && post.7 == self.7 && post.8 == self.8 && post.9 == self.9 && post.10 == self.10 && post.11 == self.11 && post.12 == self.12 && post.13 == self.13
        &&& self.0.succeeds(i) && self.1.succeeds(i1) && self.2.succeeds(i2) && !self.3.succeeds(i3) ==> post.4 == self.4 && post.5 == self.5 && post.6 == self.6 && post.7 == self.7 && post.8 == self.8 && post.9 == self.9 && post.10 == self.10 && post.11 == self.11 && post.12 == self.12 && post.13 == self.13
        &&& self.0.succeeds(i) && self.1.succeeds(i1) && self.2.succeeds(i2) && self.3.succeeds(i3) && !self.4.succeeds(i4) ==> post.5 == self.5 && post.6 == self.6 && post.7 == self.7 && post.8 == self.8 && post.9 == self.9 && post.10 == self.10 && post.11 == self.11 && post.12 == self.12 && post.13 == self.13
        &&& self.0.succeeds(i) && self.1.succeeds(i1) && self.2.succeeds(i2) && self.3.succeeds(i3) && self.4.succeeds(i4) && !self.5.succeeds(i5) ==> post.6 == self.6 && post.7 == self.7 && post.8 == self.8 && post.9 == self.9 && post.10 == self.10 && post.11 == self.11 && post.12 == self.12 && post.13 == self.13
        &&& self.0.succeeds(i) && self.1.succeeds(i1) && self.2.succeeds(i2) && self.3.succeeds(i3) && self.4.succeeds(i4) && self.5.succeeds(i5) && !self.6.succeeds(i6) ==> post.7 == self.7 && post.8 == self.8 && post.9 == self.9 && post.10 == self.10 && post.11 == self.11 && post.12 == self.12 && post.13 == self.13
        &&& self.0.succeeds(i) && self.1.succeeds(i1) && self.2.succeeds(i2) && self.3.succeeds(i3) && self.4.succeeds(i4) && self.5.succeeds(i5) && self.6.succeeds(i6) && !self.7.succeeds(i7) ==> post.8 == self.8 && post.9 == self.9 && post.10 == self.10 && post.11 == self.11 && post.12 == self.12 && post.13 == self.13
        &&& self.0.succeeds(i) && self.1.succeeds(i1) && self.2.succeeds(i2) && self.3.succeeds(i3) && self.4.succeeds(i4) && self.5.succeeds(i5) && self.6.succeeds(i6) && self.7.succeeds(i7) && !self.8.succeeds(i8) ==> post.9 == self.9 && post.10 == self.10 && post.11 == self.11 && post.12 == self.12 && post.13 == self.13
        &&& self.0.succeeds(i) && self.1.succeeds(i1) && self.2.succeeds(i2) && self.3.succeeds(i3) && self.4.succeeds(i4) && self.5.succeeds(i5) && self.6.succeeds(i6) && self.7.succeeds(i7) && self.8.succeeds(i8) && !self.9.succeeds(i9) ==> post.10 == self.10 && post.11 == self.11 && post.12 == self.12 && post.13 == self.13
        &&& self.0.succeeds(i) && self.1.succeeds(i1) && self.2.succeeds(i2) && self.3.succeeds(i3) && self.4.succeeds(i4) && self.5.succeeds(i5) && self.6.succeeds(i6) && self.7.succeeds(i7) && self.8.succeeds(i8) && self.9.succeeds(i9) && !self.10.succeeds(i10) ==> post.11 == self.11 && post.12 == self.12 && post.13 == self.13
        &&& self.0.succeeds(i) && self.1.succeeds(i1) && self.2.succeeds(i2) && self.3.succeeds(i3) && self.4.succeeds(i4) && self.5.succeeds(i5) && self.6.succeeds(i6) && self.7.succeeds(i7) && self.8.succeeds(i8) && self.9.succeeds(i9) && self.10.succeeds(i10) && !self.11.succeeds(i11) ==> post.12 == self.12 && post.13 == self.13
        &&& self.0.succeeds(i) && self.1.succeeds(i1) && self.2.succeeds(i2) && self.3.succeeds(i3) && self.4.succeeds(i4) && self.5.succeeds(i5) && self.6.succeeds(i6) && self.7.succeeds(i7) && self.8.succeeds(i8) && self.9.succeeds(i9) && self.10.succeeds(i10) && self.11.succeeds(i11) && !self.12.succeeds(i12) ==> post.13 == self.13
    }

    proof fn remaining_no_longer(&self, i: I) {
        self.0.remaining_no_longer(i);
        let i1 = self.0.remaining(i);
        self.1.remaining_no_longer(i1);
        let i2 = self.1.remaining(i1);
        self.2.remaining_no_longer(i2);
        let i3 = self.2.remaining(i2);
        self.3.remaining_no_longer(i3);
        let i4 = self.3.remaining(i3);
        self.4.remaining_no_longer(i4);
        let i5 = self.4.remaining(i4);
        self.5.remaining_no_longer(i5);
        let i6 = self.5.remaining(i5);
        self.6.remaining_no_longer(i6);
        let i7 = self.6.remaining(i6);
        self.7.remaining_no_longer(i7);
        let i8 = self.7.remaining(i7);
        self.8.remaining_no_longer(i8);
        let i9 = self.8.remaining(i8);
        self.9.remaining_no_longer(i9);
        let i10 = self.9.remaining(i9);
        self.10.remaining_no_longer(i10);
        let i11 = self.10.remaining(i10);
        self.11.remaining_no_longer(i11);
        let i12 = self.11.remaining(i11);
        self.12.remaining_no_longer(i12);
        let i13 = self.12.remaining(i12);
        self.13.remaining_no_longer(i13);
    }

    fn parse(&mut self, i: I) -> (r: IResult<I, (FnA::Output, FnB::Output, FnC::Output, FnD::Output, FnE::Output, FnF::Output, FnG::Output, FnH::Output, FnI::Output, FnJ::Output, FnK::Output, FnL::Output, FnM::Output, FnN::Output), E>) {
        match self.0.parse(i) {
            Err(e) => Err(e),
            Ok((i1, o0)) => {
                match self.1.parse(i1) {
                    Err(e) => Err(e),
                    Ok((i2, o1)) => {
                        match self.2.parse(i2) {
                            Err(e) => Err(e),
                            Ok((i3, o2)) => {
                                match self.3.parse(i3) {
                                    Err(e) => Err(e),
                                    Ok((i4, o3)) => {
                                        match self.4.parse(i4) {
                                            Err(e) => Err(e),
                                            Ok((i5, o4)) => {
                                                match self.5.parse(i5) {
                                                    Err(e) => Err(e),
                                                    Ok((i6, o5)) => {
                                                        match self.6.parse(i6) {
                                                            Err(e) => Err(e),
                                                            Ok((i7, o6)) => {
                                                                match self.7.parse(i7) {
                                                                    Err(e) => Err(e),
                                                                    Ok((i8, o7)) => {
                                                                        match self.8.parse(i8) {
                                                                            Err(e) => Err(e),
                                                                            Ok((i9, o8)) => {
                                                                                match self.9.parse(i9) {
                                                                                    Err(e) => Err(e),
                                                                                    Ok((i10, o9)) => {
                                                                                        match self.10.parse(i10) {
                                                                                            Err(e) => Err(e),
                                                                                            Ok((i11, o10)) => {
                                                                                                match self.11.parse(i11) {
                                                                                                    Err(e) => Err(e),
                                                                                                    Ok((i12, o11)) => {
                                                                                                        match self.12.parse(i12) {
                                                                                                            Err(e) => Err(e),
                                                                                                            Ok((i13, o12)) => {
                                                                                                                match self.13.parse(i13) {
                                                                                                                    Err(e) => Err(e),
                                                                                                                    Ok((i14, o13)) => Ok((i14, (o0, o1, o2, o3, o4, o5, o6, o7, o8, o9, o10, o11, o12, o13))),
                                                                                                                }
                                                                                                            },
                                                                                                        }
                                                                                                    },
                                                                                                }
                                                                                            },
                                                                                        }
                                                                                    },
                                                                                }
                                                                            },
                                                                        }
                                                                    },
                                                                }
                                                            },
                                                        }
                                                    },
                                                }
                                            },
                                        }
                                    },
                                }
                            },
                        }
                    },
                }
            },
        }
    }
}

/// Runs the 15 parsers in index order, each on what its predecessor
/// left, and yields their outputs as a 15-tuple.
impl<
    I: InputLength,
    E,
    FnA: Parser<I, E>,
    FnB: Parser<I, E>,
    FnC: Parser<I, E>,
    FnD: Parser<I, E>,
    FnE: Parser<I, E>,
    FnF: Parser<I, E>,
    FnG: Parser<I, E>,
    FnH: Parser<I, E>,
    FnI: Parser<I, E>,
    FnJ: Parser<I, E>,
    FnK: Parser<I, E>,
    FnL: Parser<I, E>,
    FnM: Parser<I, E>,
    FnN: Parser<I, E>,
    FnO: Parser<I, E>,
> Tuple<I, E> for (FnA, FnB, FnC, FnD, FnE, FnF, FnG, FnH, FnI, FnJ, FnK, FnL, FnM, FnN, FnO) {
    type Output = (FnA::Output, FnB::Output, FnC::Output, FnD::Output, FnE::Output, FnF::Output, FnG::Output, FnH::Output, FnI::Output, FnJ::Output, FnK::Output, FnL::Output, FnM::Output, FnN::Output, FnO::Output);

    /// Every component succeeds, each on what its predecessor left.
    open spec fn succeeds(&self, i: I) -> bool {
        let i1 = self.0.remaining(i);
        let i2 = self.1.remaining(i1);
        let i3 = self.2.remaining(i2);
        let i4 = self.3.remaining(i3);
        let i5 = self.4.remaining(i4);
        let i6 = self.5.remaining(i5);
        let i7 = self.6.remaining(i6);
        let i8 = self.7.remaining(i7);
        let i9 = self.8.remaining(i8);
        let i10 = self.9.remaining(i9);
        let i11 = self.10.remaining(i10);
        let i12 = self.11.remaining(i11);
        let i13 = self.12.remaining(i12);
        let i14 = self.13.remaining(i13);
        &&& self.0.succeeds(i)
        &&& self.1.succeeds(i1)
        &&& self.2.succeeds(i2)
        &&& self.3.succeeds(i3)
        &&& self.4.succeeds(i4)
        &&& self.5.succeeds(i5)
        &&& self.6.succeeds(i6)
        &&& self.7.succeeds(i7)
        &&& self.8.succeeds(i8)
        &&& self.9.succeeds(i9)
        &&& self.10.succeeds(i10)
        &&& self.11.succeeds(i11)
        &&& self.12.succeeds(i12)
        &&& self.13.succeeds(i13)
        &&& self.14.succeeds(i14)
    }

    /// What the last component leaves.
    open spec fn remaining(&self, i: I) -> I {
        let i1 = self.0.remaining(i);
        let i2 = self.1.remaining(i1);
        let i3 = self.2.remaining(i2);
        let i4 = self.3.remaining(i3);
        let i5 = self.4.remaining(i4);
        let i6 = self.5.remaining(i5);
        let i7 = self.6.remaining(i6);
        let i8 = self.7.remaining(i7);
        let i9 = self.8.remaining(i8);
        let i10 = self.9.remaining(i9);
        let i11 = self.10.remaining(i10);
        let i12 = self.11.remaining(i11);
        let i13 = self.12.remaining(i12);
        let i14 = self.13.remaining(i13);
        self.14.remaining(i14)
    }

    /// Position `k` holds an output of parser `k`, run on the cursor
    /// left by parser `k - 1`.
    open spec fn produces(&self, i: I, o: (FnA::Output, FnB::Output, FnC::Output, FnD::Output, FnE::Output, FnF::Output, FnG::Output, FnH::Output, FnI::Output, FnJ::Output, FnK::Output, FnL::Output, FnM::Output, FnN::Output, FnO::Output)) -> bool {
        let i1 = self.0.remaining(i);
        let i2 = self.1.remaining(i1);
        let i3 = self.2.remaining(i2);
        let i4 = self.3.remaining(i3);
        let i5 = self.4.remaining(i4);
        let i6 = self.5.remaining(i5);
        let i7 = self.6.remaining(i6);
        let i8 = self.7.remaining(i7);
        let i9 = self.8.remaining(i8);
        let i10 = self.9.remaining(i9);
        let i11 = self.10.remaining(i10);
        let i12 = self.11.remaining(i11);
        let i13 = self.12.remaining(i12);
        let i14 = self.13.remaining(i13);
        &&& self.0.produces(i, o.0)
        &&& self.1.produces(i1, o.1)
        &&& self.2.produces(i2, o.2)
        &&& self.3.produces(i3, o.3)
        &&& self.4.produces(i4, o.4)
        &&& self.5.produces(i5, o.5)
        &&& self.6.produces(i6, o.6)
        &&& self.7.produces(i7, o.7)
        &&& self.8.produces(i8, o.8)
        &&& self.9.produces(i9, o.9)
        &&& self.10.produces(i10, o.10)
        &&& self.11.produces(i11, o.11)
        &&& self.12.produces(i12, o.12)
        &&& self.13.produces(i13, o.13)
        &&& self.14.produces(i14, o.14)
    }

    /// The first failing component's outcome, unchanged.
    open spec fn failure(&self, i: I) -> ParseErr<E> {
        let i1 = self.0.remaining(i);
        let i2 = self.1.remaining(i1);
        let i3 = self.2.remaining(i2);
        let i4 = self.3.remaining(i3);
        let i5 = self.4.remaining(i4);
        let i6 = self.5.remaining(i5);
        let i7 = self.6.remaining(i6);
        let i8 = self.7.remaining(i7);
        let i9 = self.8.remaining(i8);
        let i10 = self.9.remaining(i9);
        let i11 = self.10.remaining(i10);
        let i12 = self.11.remaining(i11);
        let i13 = self.12.remaining(i12);
        let i14 = self.13.remaining(i13);
        if !self.0.succeeds(i) {
            self.0.failure(i)
        } else if !self.1.succeeds(i1) {
            self.1.failure(i1)
        } else if !self.2.succeeds(i2) {
            self.2.failure(i2)
        } else if !self.3.succeeds(i3) {
            self.3.failure(i3)
        } else if !self.4.succeeds(i4) {
            self.4.failure(i4)
        } else if !self.5.succeeds(i5) {
            self.5.failure(i5)
        } else if !self.6.succeeds(i6) {
            self.6.failure(i6)
        } else if !self.7.succeeds(i7) {
            self.7.failure(i7)
        } else if !self.8.succeeds(i8) {
            self.8.failure(i8)
        } else if !self.9.succeeds(i9) {
            self.9.failure(i9)
        } else if !self.10.succeeds(i10) {
            self.10.failure(i10)
        } else if !self.11.succeeds(i11) {
            self.11.failure(i11)
        } else if !self.12.succeeds(i12) {
            self.12.failure(i12)
        } else if !self.13.succeeds(i13) {
            self.13.failure(i13)
        } else {
            self.14.failure(i14)
        }
    }

    /// Fail-fast: when component `k` is the first to fail, the
    /// components after position `k` are never run.
    open spec fn untouched_on_failure(&self, post: Self, i: I) -> bool {
        let i1 = self.0.remaining(i);
        let i2 = self.1.remaining(i1);
        let i3 = self.2.remaining(i2);
        let i4 = self.3.remaining(i3);
        let i5 = self.4.remaining(i4);
        let i6 = self.5.remaining(i5);
        let i7 = self.6.remaining(i6);
        let i8 = self.7.remaining(i7);
        let i9 = self.8.remaining(i8);
        let i10 = self.9.remaining(i9);
        let i11 = self.10.remaining(i10);
        let i12 = self.11.remaining(i11);
        let i13 = self.12.remaining(i12);
        &&& !self.0.succeeds(i) ==> post.1 == self.1 && post.2 == self.2 && post.3 == self.3 && post.4 == self.4 && post.5 == self.5 && post.6 == self.6 && post.7 == self.7 && post.8 == self.8 && post.9 == self.9 && post.10 == self.10 && post.11 == self.11 && post.12 == self.12 && post.13 == self.13 && post.14 == self.14
        &&& self.0.succeeds(i) && !self.1.succeeds(i1) ==> post.2 == self.2 && post.3 == self.3 && post.4 == self.4 && post.5 == self.5 && post.6 == self.6 && post.7 == self.7 && post.8 == self.8 && post.9 == self.9 && post.10 == self.10 && post.11 == self.11 && post.12 == self.12 && post.13 == self.13 && post.14 == self.14
        &&& self.0.succeeds(i) && self.1.succeeds(i1) && !self.2.succeeds(i2) ==> post.3 == self.3 && post.4 == self.4 && post.5 == self.5 && post.6 == self.6 && post.7 == self.7 && post.8 == self.8 && post.9 == self.9 && post.10 == self.10 && post.11 == self.11 && post.12 == self.12 && post.13 == self.13 && post.14 == self.14
        &&& self.0.succeeds(i) && self.1.succeeds(i1) && self.2.succeeds(i2) && !self.3.succeeds(i3) ==> post.4 == self.4 && post.5 == self.5 && post.6 == self.6 && post.7 == self.7 && post.8 == self.8 && post.9 == self.9 && post.10 == self.10 && post.11 == self.11 && post.12 == self.12 && post.13 == self.13 && post.14 == self.14
        &&& self.0.succeeds(i) && self.1.succeeds(i1) && self.2.succeeds(i2) && self.3.succeeds(i3) && !self.4.succeeds(i4) ==> post.5 == self.5 && post.6 == self.6 && post.7 == self.7 && post.8 == self.8 && post.9 == self.9 && post.10 == self.10 && post.11 == self.11 && post.12 == self.12 && post.13 == self.13 && post.14 == self.14
        &&& self.0.succeeds(i) && self.1.succeeds(i1) && self.2.succeeds(i2) && self.3.succeeds(i3) && self.4.succeeds(i4) && !self.5.succeeds(i5) ==> post.6 == self.6 && post.7 == self.7 && post.8 == self.8 && post.9 == self.9 && post.10 == self.10 && post.11 == self.11 && post.12 == self.12 && post.13 == self.13 && post.14 == self.14
        &&& self.0.succeeds(i) && self.1.succeeds(i1) && self.2.succeeds(i2) && self.3.succeeds(i3) && self.4.succeeds(i4) && self.5.succeeds(i5) && !self.6.succeeds(i6) ==> post.7 == self.7 && post.8 == self.8 && post.9 == self.9 && post.10 == self.10 && post.11 == self.11 && post.12 == self.12 && post.13 == self.13 && post.14 == self.14
        &&& self.0.succeeds(i) && self.1.succeeds(i1) && self.2.succeeds(i2) && self.3.succeeds(i3) && self.4.succeeds(i4) && self.5.succeeds(i5) && self.6.succeeds(i6) && !self.7.succeeds(i7) ==> post.8 == self.8 && post.9 == self.9 && post.10 == self.10 && post.11 == self.11 && post.12 == self.12 && post.13 == self.13 && post.14 == self.14
        &&& self.0.succeeds(i) && self.1.succeeds(i1) && self.2.succeeds(i2) && self.3.succeeds(i3) && self.4.succeeds(i4) && self.5.succeeds(i5) && self.6.succeeds(i6) && self.7.succeeds(i7) && !self.8.succeeds(i8) ==> post.9 == self.9 && post.10 == self.10 && post.11 == self.11 && post.12 == self.12 && post.13 == self.13 && post.14 == self.14
        &&& self.0.succeeds(i) && self.1.succeeds(i1) && self.2.succeeds(i2) && self.3.succeeds(i3) && self.4.succeeds(i4) && self.5.succeeds(i5) && self.6.succeeds(i6) && self.7.succeeds(i7) && self.8.succeeds(i8) && !self.9.succeeds(i9) ==> post.10 == self.10 && post.11 == self.11 && post.12 == self.12 && post.13 == self.13 && post.14 == self.14
        &&& self.0.succeeds(i) && self.1.succeeds(i1) && self.2.succeeds(i2) && self.3.succeeds(i3) && self.4.succeeds(i4) && self.5.succeeds(i5) && self.6.succeeds(i6) && self.7.succeeds(i7) && self.8.succeeds(i8) && self.9.succeeds(i9) && !self.10.succeeds(i10) ==> post.11 == self.11 && post.12 == self.12 && post.13 == self.13 && post.14 == self.14
        &&& self.0.succeeds(i) && self.1.succeeds(i1) && self.2.succeeds(i2) && self.3.succeeds(i3) && self.4.succeeds(i4) && self.5.succeeds(i5) && self.6.succeeds(i6) && self.7.succeeds(i7) && self.8.succeeds(i8) && self.9.succeeds(i9) && self.10.succeeds(i10) && !self.11.succeeds(i11) ==> post.12 == self.12 && post.13 == self.13 && post.14 == self.14
        &&& self.0.succeeds(i) && self.1.succeeds(i1) && self.2.succeeds(i2) && self.3.succeeds(i3) && self.4.succeeds(i4) && self.5.succeeds(i5) && self.6.succeeds(i6) && self.7.succeeds(i7) && self.8.succeeds(i8) && self.9.succeeds(i9) && self.10.succeeds(i10) && self.11.succeeds(i11) && !self.12.succeeds(i12) ==> post.13 == self.13 && post.14 == self.14
        &&& self.0.succeeds(i) && self.1.succeeds(i1) && self.2.succeeds(i2) && self.3.succeeds(i3) && self.4.succeeds(i4) && self.5.succeeds(i5) && self.6.succeeds(i6) && self.7.succeeds(i7) && self.8.succeeds(i8) && self.9.succeeds(i9) && self.10.succeeds(i10) && self.11.succeeds(i11) && self.12.succeeds(i12) && !self.13.succeeds(i13) ==> post.14 == self.14
    }

    proof fn remaining_no_longer(&self, i: I) {
        self.0.remaining_no_longer(i);
        let i1 = self.0.remaining(i);
        self.1.remaining_no_longer(i1);
        let i2 = self.1.remaining(i1);
        self.2.remaining_no_longer(i2);
        let i3 = self.2.remaining(i2);
        self.3.remaining_no_longer(i3);
        let i4 = self.3.remaining(i3);
        self.4.remaining_no_longer(i4);
        let i5 = self.4.remaining(i4);
        self.5.remaining_no_longer(i5);
        let i6 = self.5.remaining(i5);
        self.6.remaining_no_longer(i6);
        let i7 = self.6.remaining(i6);
        self.7.remaining_no_longer(i7);
        let i8 = self.7.remaining(i7);
        self.8.remaining_no_longer(i8);
        let i9 = self.8.remaining(i8);
        self.9.remaining_no_longer(i9);
        let i10 = self.9.remaining(i9);
        self.10.remaining_no_longer(i10);
        let i11 = self.10.remaining(i10);
        self.11.remaining_no_longer(i11);
        let i12 = self.11.remaining(i11);
        self.12.remaining_no_longer(i12);
        let i13 = self.12.remaining(i12);
        self.13.remaining_no_longer(i13);
        let i14 = self.13.remaining(i13);
        self.14.remaining_no_longer(i14);
    }

    fn parse(&mut self, i: I) -> (r: IResult<I, (FnA::Output, FnB::Output, FnC::Output, FnD::Output, FnE::Output, FnF::Output, FnG::Output, FnH::Output, FnI::Output, FnJ::Output, FnK::Output, FnL::Output, FnM::Output, FnN::Output, FnO::Output), E>) {
        match self.0.parse(i) {
            Err(e) => Err(e),
            Ok((i1, o0)) => {
                match self.1.parse(i1) {
                    Err(e) => Err(e),
                    Ok((i2, o1)) => {
                        match self.2.parse(i2) {
                            Err(e) => Err(e),
                            Ok((i3, o2)) => {
                                match self.3.parse(i3) {
                                    Err(e) => Err(e),
                                    Ok((i4, o3)) => {
                                        match self.4.parse(i4) {
                                            Err(e) => Err(e),
                                            Ok((i5, o4)) => {
                                                match self.5.parse(i5) {
                                                    Err(e) => Err(e),
                                                    Ok((i6, o5)) => {
                                                        match self.6.parse(i6) {
                                                            Err(e) => Err(e),
                                                            Ok((i7, o6)) => {
                                                                match self.7.parse(i7) {
                                                                    Err(e) => Err(e),
                                                                    Ok((i8, o7)) => {
                                                                        match self.8.parse(i8) {
                                                                            Err(e) => Err(e),
                                                                            Ok((i9, o8)) => {
                                                                                match self.9.parse(i9) {
                                                                                    Err(e) => Err(e),
                                                                                    Ok((i10, o9)) => {
                                                                                        match self.10.parse(i10) {
                                                                                            Err(e) => Err(e),
                                                                                            Ok((i11, o10)) => {
                                                                                                match self.11.parse(i11) {
                                                                                                    Err(e) => Err(e),
                                                                                                    Ok((i12, o11)) => {
                                                                                                        match self.12.parse(i12) {
                                                                                                            Err(e) => Err(e),
                                                                                                            Ok((i13, o12)) => {
                                                                                                                match self.13.parse(i13) {
                                                                                                                    Err(e) => Err(e),
                                                                                                                    Ok((i14, o13)) => {
                                                                                                                        match self.14.parse(i14) {
                                                                                                                            Err(e) => Err(e),
                                                                                                                            Ok((i15, o14)) => Ok((i15, (o0, o1, o2, o3, o4, o5, o6, o7, o8, o9, o10, o11, o12, o13, o14))),
                                                                                                                        }
                                                                                                                    },
                                                                                                                }
                                                                                                            },
                                                                                                        }
                                                                                                    },
                                                                                                }
                                                                                            },
                                                                                        }
                                                                                    },
                                                                                }
                                                                            },
                                                                        }
                                                                    },
                                                                }
                                                            },
                                                        }
                                                    },
                                                }
                                            },
                                        }
                                    },
                                }
                            },
                        }
                    },
                }
            },
        }
    }
}

/// Runs the 16 parsers in index order, each on what its predecessor
/// left, and yields their outputs as a 16-tuple.
impl<
    I: InputLength,
    E,
    FnA: Parser<I, E>,
    FnB: Parser<I, E>,
    FnC: Parser<I, E>,
    FnD: Parser<I, E>,
    FnE: Parser<I, E>,
    FnF: Parser<I, E>,
    FnG: Parser<I, E>,
    FnH: Parser<I, E>,
    FnI: Parser<I, E>,
    FnJ: Parser<I, E>,
    FnK: Parser<I, E>,
    FnL: Parser<I, E>,
    FnM: Parser<I, E>,
    FnN: Parser<I, E>,
    FnO: Parser<I, E>,
    FnP: Parser<I, E>,
> Tuple<I, E> for (FnA, FnB, FnC, FnD, FnE, FnF, FnG, FnH, FnI, FnJ, FnK, FnL, FnM, FnN, FnO, FnP) {
    type Output = (FnA::Output, FnB::Output, FnC::Output, FnD::Output, FnE::Output, FnF::Output, FnG::Output, FnH::Output, FnI::Output, FnJ::Output, FnK::Output, FnL::Output, FnM::Output, FnN::Output, FnO::Output, FnP::Output);

    /// Every component succeeds, each on what its predecessor left.
    open spec fn succeeds(&self, i: I) -> bool {
        let i1 = self.0.remaining(i);
        let i2 = self.1.remaining(i1);
        let i3 = self.2.remaining(i2);
        let i4 = self.3.remaining(i3);
        let i5 = self.4.remaining(i4);
        let i6 = self.5.remaining(i5);
        let i7 = self.6.remaining(i6);
        let i8 = self.7.remaining(i7);
        let i9 = self.8.remaining(i8);
        let i10 = self.9.remaining(i9);
        let i11 = self.10.remaining(i10);
        let i12 = self.11.remaining(i11);
        let i13 = self.12.remaining(i12);
        let i14 = self.13.remaining(i13);
        let i15 = self.14.remaining(i14);
        &&& self.0.succeeds(i)
        &&& self.1.succeeds(i1)
        &&& self.2.succeeds(i2)
        &&& self.3.succeeds(i3)
        &&& self.4.succeeds(i4)
        &&& self.5.succeeds(i5)
        &&& self.6.succeeds(i6)
        &&& self.7.succeeds(i7)
        &&& self.8.succeeds(i8)
        &&& self.9.succeeds(i9)
        &&& self.10.succeeds(i10)
        &&& self.11.succeeds(i11)
        &&& self.12.succeeds(i12)
        &&& self.13.succeeds(i13)
        &&& self.14.succeeds(i14)
        &&& self.15.succeeds(i15)
    }

    /// What the last component leaves.
    open spec fn remaining(&self, i: I) -> I {
        let i1 = self.0.remaining(i);
        let i2 = self.1.remaining(i1);
        let i3 = self.2.remaining(i2);
        let i4 = self.3.remaining(i3);
        let i5 = self.4.remaining(i4);
        let i6 = self.5.remaining(i5);
        let i7 = self.6.remaining(i6);
        let i8 = self.7.remaining(i7);
        let i9 = self.8.remaining(i8);
        let i10 = self.9.remaining(i9);
        let i11 = self.10.remaining(i10);
        let i12 = self.11.remaining(i11);
        let i13 = self.12.remaining(i12);
        let i14 = self.13.remaining(i13);
        let i15 = self.14.remaining(i14);
        self.15.remaining(i15)
    }

    /// Position `k` holds an output of parser `k`, run on the cursor
    /// left by parser `k - 1`.
    open spec fn produces(&self, i: I, o: (FnA::Output, FnB::Output, FnC::Output, FnD::Output, FnE::Output, FnF::Output, FnG::Output, FnH::Output, FnI::Output, FnJ::Output, FnK::Output, FnL::Output, FnM::Output, FnN::Output, FnO::Output, FnP::Output)) -> bool {
        let i1 = self.0.remaining(i);
        let i2 = self.1.remaining(i1);
        let i3 = self.2.remaining(i2);
        let i4 = self.3.remaining(i3);
        let i5 = self.4.remaining(i4);
        let i6 = self.5.remaining(i5);
        let i7 = self.6.remaining(i6);
        let i8 = self.7.remaining(i7);
        let i9 = self.8.remaining(i8);
        let i10 = self.9.remaining(i9);
        let i11 = self.10.remaining(i10);
        let i12 = self.11.remaining(i11);
        let i13 = self.12.remaining(i12);
        let i14 = self.13.remaining(i13);
        let i15 = self.14.remaining(i14);
        &&& self.0.produces(i, o.0)
        &&& self.1.produces(i1, o.1)
        &&& self.2.produces(i2, o.2)
        &&& self.3.produces(i3, o.3)
        &&& self.4.produces(i4, o.4)
        &&& self.5.produces(i5, o.5)
        &&& self.6.produces(i6, o.6)
        &&& self.7.produces(i7, o.7)
        &&& self.8.produces(i8, o.8)
        &&& self.9.produces(i9, o.9)
        &&& self.10.produces(i10, o.10)
        &&& self.11.produces(i11, o.11)
        &&& self.12.produces(i12, o.12)
        &&& self.13.produces(i13, o.13)
        &&& self.14.produces(i14, o.14)
        &&& self.15.produces(i15, o.15)
    }

    /// The first failing component's outcome, unchanged.
    open spec fn failure(&self, i: I) -> ParseErr<E> {
        let i1 = self.0.remaining(i);
        let i2 = self.1.remaining(i1);
        let i3 = self.2.remaining(i2);
        let i4 = self.3.remaining(i3);
        let i5 = self.4.remaining(i4);
        let i6 = self.5.remaining(i5);
        let i7 = self.6.remaining(i6);
        let i8 = self.7.remaining(i7);
        let i9 = self.8.remaining(i8);
        let i10 = self.9.remaining(i9);
        let i11 = self.10.remaining(i10);
        let i12 = self.11.remaining(i11);
        let i13 = self.12.remaining(i12);
        let i14 = self.13.remaining(i13);
        let i15 = self.14.remaining(i14);
        if !self.0.succeeds(i) {
            self.0.failure(i)
        } else if !self.1.succeeds(i1) {
            self.1.failure(i1)
        } else if !self.2.succeeds(i2) {
            self.2.failure(i2)
        } else if !self.3.succeeds(i3) {
            self.3.failure(i3)
        } else if !self.4.succeeds(i4) {
            self.4.failure(i4)
        } else if !self.5.succeeds(i5) {
            self.5.failure(i5)
        } else if !self.6.succeeds(i6) {
            self.6.failure(i6)
        } else if !self.7.succeeds(i7) {
            self.7.failure(i7)
        } else if !self.8.succeeds(i8) {
            self.8.failure(i8)
        } else if !self.9.succeeds(i9) {
            self.9.failure(i9)
        } else if !self.10.succeeds(i10) {
            self.10.failure(i10)
        } else if !self.11.succeeds(i11) {
            self.11.failure(i11)
        } else if !self.12.succeeds(i12) {
            self.12.failure(i12)
        } else if !self.13.succeeds(i13) {
            self.13.failure(i13)
        } else if !self.14.succeeds(i14) {
            self.14.failure(i14)
        } else {
            self.15.failure(i15)
        }
    }

    /// Fail-fast: when component `k` is the first to fail, the
    /// components after position `k` are never run.
    open spec fn untouched_on_failure(&self, post: Self, i: I) -> bool {
        let i1 = self.0.remaining(i);
        let i2 = self.1.remaining(i1);
        let i3 = self.2.remaining(i2);
        let i4 = self.3.remaining(i3);
        let i5 = self.4.remaining(i4);
        let i6 = self.5.remaining(i5);
        let i7 = self.6.remaining(i6);
        let i8 = self.7.remaining(i7);
        let i9 = self.8.remaining(i8);
        let i10 = self.9.remaining(i9);
        let i11 = self.10.remaining(i10);
        let i12 = self.11.remaining(i11);
        let i13 = self.12.remaining(i12);
        let i14 = self.13.remaining(i13);
        &&& !self.0.succeeds(i) ==> post.1 == self.1 && post.2 == self.2 && post.3 == self.3 && post.4 == self.4 && post.5 == self.5 && post.6 == self.6 && post.7 == self.7 && post.8 == self.8 && post.9 == self.9 && post.10 == self.10 && post.11 == self.11 && post.12 == self.12 && post.13 == self.13 && post.14 == self.14 && post.15 == self.15
        &&& self.0.succeeds(i) && !self.1.succeeds(i1) ==> post.2 == self.2 && post.3 == self.3 && post.4 == self.4 && post.5 == self.5 && post.6 == self.6 && post.7 == self.7 && post.8 == self.8 && post.9 == self.9 && post.10 == self.10 && post.11 == self.11 && post.12 == self.12 && post.13 == self.13 && post.14 == self.14 && post.15 == self.15
        &&& self.0.succeeds(i) && self.1.succeeds(i1) && !self.2.succeeds(i2) ==> post.3 == self.3 && post.4 == self.4 && post.5 == self.5 && post.6 == self.6 && post.7 == self.7 && post.8 == self.8 && post.9 == self.9 && post.10 == self.10 && post.11 == self.11 && post.12 == self.12 && post.13 == self.13 && post.14 == self.14 && post.15 == self.15
        &&& self.0.succeeds(i) && self.1.succeeds(i1) && self.2.succeeds(i2) && !self.3.succeeds(i3) ==> post.4 == self.4 && post.5 == self.5 && post.6 == self.6 && post.7 == self.7 && post.8 == self.8 && post.9 == self.9 && post.10 == self.10 && post.11 == self.11 && post.12 == self.12 && post.13 == self.13 && post.14 == self.14 && post.15 == self.15
        &&& self.0.succeeds(i) && self.1.succeeds(i1) && self.2.succeeds(i2) && self.3.succeeds(i3) && !self.4.succeeds(i4) ==> post.5 == self.5 && post.6 == self.6 && post.7 == self.7 && post.8 == self.8 && post.9 == self.9 && post.10 == self.10 && post.11 == self.11 && post.12 == self.12 && post.13 == self.13 && post.14 == self.14 && post.15 == self.15
        &&& self.0.succeeds(i) && self.1.succeeds(i1) && self.2.succeeds(i2) && self.3.succeeds(i3) && self.4.succeeds(i4) && !self.5.succeeds(i5) ==> post.6 == self.6 && post.7 == self.7 && post.8 == self.8 && post.9 == self.9 && post.10 == self.10 && post.11 == self.11 && post.12 == self.12 && post.13 == self.13 && post.14 == self.14 && post.15 == self.15
        &&& self.0.succeeds(i) && self.1.succeeds(i1) && self.2.succeeds(i2) && self.3.succeeds(i3) && self.4.succeeds(i4) && self.5.succeeds(i5) && !self.6.succeeds(i6) ==> post.7 == self.7 && post.8 == self.8 && post.9 == self.9 && post.10 == self.10 && post.11 == self.11 && post.12 == self.12 && post.13 == self.13 && post.14 == self.14 && post.15 == self.15
        &&& self.0.succeeds(i) && self.1.succeeds(i1) && self.2.succeeds(i2) && self.3.succeeds(i3) && self.4.succeeds(i4) && self.5.succeeds(i5) && self.6.succeeds(i6) && !self.7.succeeds(i7) ==> post.8 == self.8 && post.9 == self.9 && post.10 == self.10 && post.11 == self.11 && post.12 == self.12 && post.13 == self.13 && post.14 == self.14 && post.15 == self.15
        &&& self.0.succeeds(i) && self.1.succeeds(i1) && self.2.succeeds(i2) && self.3.succeeds(i3) && self.4.succeeds(i4) && self.5.succeeds(i5) && self.6.succeeds(i6) && self.7.succeeds(i7) && !self.8.succeeds(i8) ==> post.9 == self.9 && post.10 == self.10 && post.11 == self.11 && post.12 == self.12 && post.13 == self.13 && post.14 == self.14 && post.15 == self.15
        &&& self.0.succeeds(i) && self.1.succeeds(i1) && self.2.succeeds(i2) && self.3.succeeds(i3) && self.4.succeeds(i4) && self.5.succeeds(i5) && self.6.succeeds(i6) && self.7.succeeds(i7) && self.8.succeeds(i8) && !self.9.succeeds(i9) ==> post.10 == self.10 && post.11 == self.11 && post.12 == self.12 && post.13 == self.13 && post.14 == self.14 && post.15 == self.15
        &&& self.0.succeeds(i) && self.1.succeeds(i1) && self.2.succeeds(i2) && self.3.succeeds(i3) && self.4.succeeds(i4) && self.5.succeeds(i5) && self.6.succeeds(i6) && self.7.succeeds(i7) && self.8.succeeds(i8) && self.9.succeeds(i9) && !self.10.succeeds(i10) ==> post.11 == self.11 && post.12 == self.12 && post.13 == self.13 && post.14 == self.14 && post.15 == self.15
        &&& self.0.succeeds(i) && self.1.succeeds(i1) && self.2.succeeds(i2) && self.3.succeeds(i3) && self.4.succeeds(i4) && self.5.succeeds(i5) && self.6.succeeds(i6) && self.7.succeeds(i7) && self.8.succeeds(i8) && self.9.succeeds(i9) && self.10.succeeds(i10) && !self.11.succeeds(i11) ==> post.12 == self.12 && post.13 == self.13 && post.14 == self.14 && post.15 == self.15
        &&& self.0.succeeds(i) && self.1.succeeds(i1) && self.2.succeeds(i2) && self.3.succeeds(i3) && self.4.succeeds(i4) && self.5.succeeds(i5) && self.6.succeeds(i6) && self.7.succeeds(i7) && self.8.succeeds(i8) && self.9.succeeds(i9) && self.10.succeeds(i10) && self.11.succeeds(i11) && !self.12.succeeds(i12) ==> post.13 == self.13 && post.14 == self.14 && post.15 == self.15
        &&& self.0.succeeds(i) && self.1.succeeds(i1) && self.2.succeeds(i2) && self.3.succeeds(i3) && self.4.succeeds(i4) && self.5.succeeds(i5) && self.6.succeeds(i6) && self.7.succeeds(i7) && self.8.succeeds(i8) && self.9.succeeds(i9) && self.10.succeeds(i10) && self.11.succeeds(i11) && self.12.succeeds(i12) && !self.13.succeeds(i13) ==> post.14 == self.14 && post.15 == self.15
        &&& self.0.succeeds(i) && self.1.succeeds(i1) && self.2.succeeds(i2) && self.3.succeeds(i3) && self.4.succeeds(i4) && self.5.succeeds(i5) && self.6.succeeds(i6) && self.7.succeeds(i7) && self.8.succeeds(i8) && self.9.succeeds(i9) && self.10.succeeds(i10) && self.11.succeeds(i11) && self.12.succeeds(i12) && self.13.succeeds(i13) && !self.14.succeeds(i14) ==> post.15 == self.15
    }

    proof fn remaining_no_longer(&self, i: I) {
        self.0.remaining_no_longer(i);
        let i1 = self.0.remaining(i);
        self.1.remaining_no_longer(i1);
        let i2 = self.1.remaining(i1);
        self.2.remaining_no_longer(i2);
        let i3 = self.2.remaining(i2);
        self.3.remaining_no_longer(i3);
        let i4 = self.3.remaining(i3);
        self.4.remaining_no_longer(i4);
        let i5 = self.4.remaining(i4);
        self.5.remaining_no_longer(i5);
        let i6 = self.5.remaining(i5);
        self.6.remaining_no_longer(i6);
        let i7 = self.6.remaining(i6);
        self.7.remaining_no_longer(i7);
        let i8 = self.7.remaining(i7);
        self.8.remaining_no_longer(i8);
        let i9 = self.8.remaining(i8);
        self.9.remaining_no_longer(i9);
        let i10 = self.9.remaining(i9);
        self.10.remaining_no_longer(i10);
        let i11 = self.10.remaining(i10);
        self.11.remaining_no_longer(i11);
        let i12 = self.11.remaining(i11);
        self.12.remaining_no_longer(i12);
        let i13 = self.12.remaining(i12);
        self.13.remaining_no_longer(i13);
        let i14 = self.13.remaining(i13);
        self.14.remaining_no_longer(i14);
        let i15 = self.14.remaining(i14);
        self.15.remaining_no_longer(i15);
    }

    fn parse(&mut self, i: I) -> (r: IResult<I, (FnA::Output, FnB::Output, FnC::Output, FnD::Output, FnE::Output, FnF::Output, FnG::Output, FnH::Output, FnI::Output, FnJ::Output, FnK::Output, FnL::Output, FnM::Output, FnN::Output, FnO::Output, FnP::Output), E>) {
        match self.0.parse(i) {
            Err(e) => Err(e),
            Ok((i1, o0)) => {
                match self.1.parse(i1) {
                    Err(e) => Err(e),
                    Ok((i2, o1)) => {
                        match self.2.parse(i2) {
                            Err(e) => Err(e),
                            Ok((i3, o2)) => {
                                match self.3.parse(i3) {
                                    Err(e) => Err(e),
                                    Ok((i4, o3)) => {
                                        match self.4.parse(i4) {
                                            Err(e) => Err(e),
                                            Ok((i5, o4)) => {
                                                match self.5.parse(i5) {
                                                    Err(e) => Err(e),
                                                    Ok((i6, o5)) => {
                                                        match self.6.parse(i6) {
                                                            Err(e) => Err(e),
                                                            Ok((i7, o6)) => {
                                                                match self.7.parse(i7) {
                                                                    Err(e) => Err(e),
                                                                    Ok((i8, o7)) => {
                                                                        match self.8.parse(i8) {
                                                                            Err(e) => Err(e),
                                                                            Ok((i9, o8)) => {
                                                                                match self.9.parse(i9) {
                                                                                    Err(e) => Err(e),
                                                                                    Ok((i10, o9)) => {
                                                                                        match self.10.parse(i10) {
                                                                                            Err(e) => Err(e),
                                                                                            Ok((i11, o10)) => {
                                                                                                match self.11.parse(i11) {
                                                                                                    Err(e) => Err(e),
                                                                                                    Ok((i12, o11)) => {
                                                                                                        match self.12.parse(i12) {
                                                                                                            Err(e) => Err(e),
                                                                                                            Ok((i13, o12)) => {
                                                                                                                match self.13.parse(i13) {
                                                                                                                    Err(e) => Err(e),
                                                                                                                    Ok((i14, o13)) => {
                                                                                                                        match self.14.parse(i14) {
                                                                                                                            Err(e) => Err(e),
                                                                                                                            Ok((i15, o14)) => {
                                                                                                                                match self.15.parse(i15) {
                                                                                                                                    Err(e) => Err(e),
                                                                                                                                    Ok((i16, o15)) => Ok((i16, (o0, o1, o2, o3, o4, o5, o6, o7, o8, o9, o10, o11, o12, o13, o14, o15))),
                                                                                                                                }
                                                                                                                            },
                                                                                                                        }
                                                                                                                    },
                                                                                                                }
                                                                                                            },
                                                                                                        }
                                                                                                    },
                                                                                                }
                                                                                            },
                                                                                        }
                                                                                    },
                                                                                }
                                                                            },
                                                                        }
                                                                    },
                                                                }
                                                            },
                                                        }
                                                    },
                                                }
                                            },
                                        }
                                    },
                                }
                            },
                        }
                    },
                }
            },
        }
    }
}

/// Runs the 17 parsers in index order, each on what its predecessor
/// left, and yields their outputs as a 17-tuple.
impl<
    I: InputLength,
    E,
    FnA: Parser<I, E>,
    FnB: Parser<I, E>,
    FnC: Parser<I, E>,
    FnD: Parser<I, E>,
    FnE: Parser<I, E>,
    FnF: Parser<I, E>,
    FnG: Parser<I, E>,
    FnH: Parser<I, E>,
    FnI: Parser<I, E>,
    FnJ: Parser<I, E>,
    FnK: Parser<I, E>,
    FnL: Parser<I, E>,
    FnM: Parser<I, E>,
    FnN: Parser<I, E>,
    FnO: Parser<I, E>,
    FnP: Parser<I, E>,
    FnQ: Parser<I, E>,
> Tuple<I, E> for (FnA, FnB, FnC, FnD, FnE, FnF, FnG, FnH, FnI, FnJ, FnK, FnL, FnM, FnN, FnO, FnP, FnQ) {
    type Output = (FnA::Output, FnB::Output, FnC::Output, FnD::Output, FnE::Output, FnF::Output, FnG::Output, FnH::Output, FnI::Output, FnJ::Output, FnK::Output, FnL::Output, FnM::Output, FnN::Output, FnO::Output, FnP::Output, FnQ::Output);

    /// Every component succeeds, each on what its predecessor left.
    open spec fn succeeds(&self, i: I) -> bool {
        let i1 = self.0.remaining(i);
        let i2 = self.1.remaining(i1);
        let i3 = self.2.remaining(i2);
        let i4 = self.3.remaining(i3);
        let i5 = self.4.remaining(i4);
        let i6 = self.5.remaining(i5);
        let i7 = self.6.remaining(i6);
        let i8 = self.7.remaining(i7);
        let i9 = self.8.remaining(i8);
        let i10 = self.9.remaining(i9);
        let i11 = self.10.remaining(i10);
        let i12 = self.11.remaining(i11);
        let i13 = self.12.remaining(i12);
        let i14 = self.13.remaining(i13);
        let i15 = self.14.remaining(i14);
        let i16 = self.15.remaining(i15);
        &&& self.0.succeeds(i)
        &&& self.1.succeeds(i1)
        &&& self.2.succeeds(i2)
        &&& self.3.succeeds(i3)
        &&& self.4.succeeds(i4)
        &&& self.5.succeeds(i5)
        &&& self.6.succeeds(i6)
        &&& self.7.succeeds(i7)
        &&& self.8.succeeds(i8)
        &&& self.9.succeeds(i9)
        &&& self.10.succeeds(i10)
        &&& self.11.succeeds(i11)
        &&& self.12.succeeds(i12)
        &&& self.13.succeeds(i13)
        &&& self.14.succeeds(i14)
        &&& self.15.succeeds(i15)
        &&& self.16.succeeds(i16)
    }

    /// What the last component leaves.
    open spec fn remaining(&self, i: I) -> I {
        let i1 = self.0.remaining(i);
        let i2 = self.1.remaining(i1);
        let i3 = self.2.remaining(i2);
        let i4 = self.3.remaining(i3);
        let i5 = self.4.remaining(i4);
        let i6 = self.5.remaining(i5);
        let i7 = self.6.remaining(i6);
        let i8 = self.7.remaining(i7);
        let i9 = self.8.remaining(i8);
        let i10 = self.9.remaining(i9);
        let i11 = self.10.remaining(i10);
        let i12 = self.11.remaining(i11);
        let i13 = self.12.remaining(i12);
        let i14 = self.13.remaining(i13);
        let i15 = self.14.remaining(i14);
        let i16 = self.15.remaining(i15);
        self.16.remaining(i16)
    }

    /// Position `k` holds an output of parser `k`, run on the cursor
    /// left by parser `k - 1`.
    open spec fn produces(&self, i: I, o: (FnA::Output, FnB::Output, FnC::Output, FnD::Output, FnE::Output, FnF::Output, FnG::Output, FnH::Output, FnI::Output, FnJ::Output, FnK::Output, FnL::Output, FnM::Output, FnN::Output, FnO::Output, FnP::Output, FnQ::Output)) -> bool {
        let i1 = self.0.remaining(i);
        let i2 = self.1.remaining(i1);
        let i3 = self.2.remaining(i2);
        let i4 = self.3.remaining(i3);
        let i5 = self.4.remaining(i4);
        let i6 = self.5.remaining(i5);
        let i7 = self.6.remaining(i6);
        let i8 = self.7.remaining(i7);
        let i9 = self.8.remaining(i8);
        let i10 = self.9.remaining(i9);
        let i11 = self.10.remaining(i10);
        let i12 = self.11.remaining(i11);
        let i13 = self.12.remaining(i12);
        let i14 = self.13.remaining(i13);
        let i15 = self.14.remaining(i14);
        let i16 = self.15.remaining(i15);
        &&& self.0.produces(i, o.0)
        &&& self.1.produces(i1, o.1)
        &&& self.2.produces(i2, o.2)
        &&& self.3.produces(i3, o.3)
        &&& self.4.produces(i4, o.4)
        &&& self.5.produces(i5, o.5)
        &&& self.6.produces(i6, o.6)
        &&& self.7.produces(i7, o.7)
        &&& self.8.produces(i8, o.8)
        &&& self.9.produces(i9, o.9)
        &&& self.10.produces(i10, o.10)
        &&& self.11.produces(i11, o.11)
        &&& self.12.produces(i12, o.12)
        &&& self.13.produces(i13, o.13)
        &&& self.14.produces(i14, o.14)
        &&& self.15.produces(i15, o.15)
        &&& self.16.produces(i16, o.16)
    }

    /// The first failing component's outcome, unchanged.
    open spec fn failure(&self, i: I) -> ParseErr<E> {
        let i1 = self.0.remaining(i);
        let i2 = self.1.remaining(i1);
        let i3 = self.2.remaining(i2);
        let i4 = self.3.remaining(i3);
        let i5 = self.4.remaining(i4);
        let i6 = self.5.remaining(i5);
        let i7 = self.6.remaining(i6);
        let i8 = self.7.remaining(i7);
        let i9 = self.8.remaining(i8);
        let i10 = self.9.remaining(i9);
        let i11 = self.10.remaining(i10);
        let i12 = self.11.remaining(i11);
        let i13 = self.12.remaining(i12);
        let i14 = self.13.remaining(i13);
        let i15 = self.14.remaining(i14);
        let i16 = self.15.remaining(i15);
        if !self.0.succeeds(i) {
            self.0.failure(i)
        } else if !self.1.succeeds(i1) {
            self.1.failure(i1)
        } else if !self.2.succeeds(i2) {
            self.2.failure(i2)
        } else if !self.3.succeeds(i3) {
            self.3.failure(i3)
        } else if !self.4.succeeds(i4) {
            self.4.failure(i4)
        } else if !self.5.succeeds(i5) {
            self.5.failure(i5)
        } else if !self.6.succeeds(i6) {
            self.6.failure(i6)
        } else if !self.7.succeeds(i7) {
            self.7.failure(i7)
        } else if !self.8.succeeds(i8) {
            self.8.failure(i8)
        } else if !self.9.succeeds(i9) {
            self.9.failure(i9)
        } else if !self.10.succeeds(i10) {
            self.10.failure(i10)
        } else if !self.11.succeeds(i11) {
            self.11.failure(i11)
        } else if !self.12.succeeds(i12) {
            self.12.failure(i12)
        } else if !self.13.succeeds(i13) {
            self.13.failure(i13)
        } else if !self.14.succeeds(i14) {
            self.14.failure(i14)
        } else if !self.15.succeeds(i15) {
            self.15.failure(i15)
        } else {
            self.16.failure(i16)
        }
    }

    /// Fail-fast: when component `k` is the first to fail, the
    /// components after position `k` are never run.
    open spec fn untouched_on_failure(&self, post: Self, i: I) -> bool {
        let i1 = self.0.remaining(i);
        let i2 = self.1.remaining(i1);
        let i3 = self.2.remaining(i2);
        let i4 = self.3.remaining(i3);
        let i5 = self.4.remaining(i4);
        let i6 = self.5.remaining(i5);
        let i7 = self.6.remaining(i6);
        let i8 = self.7.remaining(i7);
        let i9 = self.8.remaining(i8);
        let i10 = self.9.remaining(i9);
        let i11 = self.10.remaining(i10);
        let i12 = self.11.remaining(i11);
        let i13 = self.12.remaining(i12);
        let i14 = self.13.remaining(i13);
        let i15 = self.14.remaining(i14);
        &&& !self.0.succeeds(i) ==> post.1 == self.1 && post.2 == self.2 && post.3 == self.3 && post.4 == self.4 && post.5 == self.5 && post.6 == self.6 && post.7 == self.7 && post.8 == self.8 && post.9 == self.9 && post.10 == self.10 && post.11 == self.11 && post.12 == self.12 && post.13 == self.13 && post.14 == self.14 && post.15 == self.15 && post.16 == self.16
        &&& self.0.succeeds(i) && !self.1.succeeds(i1) ==> post.2 == self.2 && post.3 == self.3 && post.4 == self.4 && post.5 == self.5 && post.6 == self.6 && post.7 == self.7 && post.8 == self.8 && post.9 == self.9 && post.10 == self.10 && post.11 == self.11 && post.12 == self.12 && post.13 == self.13 && post.14 == self.14 && post.15 == self.15 && post.16 == self.16
        &&& self.0.succeeds(i) && self.1.succeeds(i1) && !self.2.succeeds(i2) ==> post.3 == self.3 && post.4 == self.4 && post.5 == self.5 && post.6 == self.6 && post.7 == self.7 && post.8 == self.8 && post.9 == self.9 && post.10 == self.10 && post.11 == self.11 && post.12 == self.12 && post.13 == self.13 && post.14 == self.14 && post.15 == self.15 && post.16 == self.16
        &&& self.0.succeeds(i) && self.1.succeeds(i1) && self.2.succeeds(i2) && !self.3.succeeds(i3) ==> post.4 == self.4 && post.5 == self.5 && post.6 == self.6 && post.7 == self.7 && post.8 == self.8 && post.9 == self.9 && post.10 == self.10 && post.11 == self.11 && post.12 == self.12 && post.13 == self.13 && post.14 == self.14 && post.15 == self.15 && post.16 == self.16
        &&& self.0.succeeds(i) && self.1.succeeds(i1) && self.2.succeeds(i2) && self.3.succeeds(i3) && !self.4.succeeds(i4) ==> post.5 == self.5 && post.6 == self.6 && post.7 == self.7 && post.8 == self.8 && post.9 == self.9 && post.10 == self.10 && post.11 == self.11 && post.12 == self.12 && post.13 == self.13 && post.14 == self.14 && post.15 == self.15 && post.16 == self.16
        &&& self.0.succeeds(i) && self.1.succeeds(i1) && self.2.succeeds(i2) && self.3.succeeds(i3) && self.4.succeeds(i4) && !self.5.succeeds(i5) ==> post.6 == self.6 && post.7 == self.7 && post.8 == self.8 && post.9 == self.9 && post.10 == self.10 && post.11 == self.11 && post.12 == self.12 && post.13 == self.13 && post.14 == self.14 && post.15 == self.15 && post.16 == self.16
        &&& self.0.succeeds(i) && self.1.succeeds(i1) && self.2.succeeds(i2) && self.3.succeeds(i3) && self.4.succeeds(i4) && self.5.succeeds(i5) && !self.6.succeeds(i6) ==> post.7 == self.7 && post.8 == self.8 && post.9 == self.9 && post.10 == self.10 && post.11 == self.11 && post.12 == self.12 && post.13 == self.13 && post.14 == self.14 && post.15 == self.15 && post.16 == self.16
        &&& self.0.succeeds(i) && self.1.succeeds(i1) && self.2.succeeds(i2) && self.3.succeeds(i3) && self.4.succeeds(i4) && self.5.succeeds(i5) && self.6.succeeds(i6) && !self.7.succeeds(i7) ==> post.8 == self.8 && post.9 == self.9 && post.10 == self.10 && post.11 == self.11 && post.12 == self.12 && post.13 == self.13 && post.14 == self.14 && post.15 == self.15 && post.16 == self.16
        &&& self.0.succeeds(i) && self.1.succeeds(i1) && self.2.succeeds(i2) && self.3.succeeds(i3) && self.4.succeeds(i4) && self.5.succeeds(i5) && self.6.succeeds(i6) && self.7.succeeds(i7) && !self.8.succeeds(i8) ==> post.9 == self.9 && post.10 == self.10 && post.11 == self.11 && post.12 == self.12 && post.13 == self.13 && post.14 == self.14 && post.15 == self.15 && post.16 == self.16
        &&& self.0.succeeds(i) && self.1.succeeds(i1) && self.2.succeeds(i2) && self.3.succeeds(i3) && self.4.succeeds(i4) && self.5.succeeds(i5) && self.6.succeeds(i6) && self.7.succeeds(i7) && self.8.succeeds(i8) && !self.9.succeeds(i9) ==> post.10 == self.10 && post.11 == self.11 && post.12 == self.12 && post.13 == self.13 && post.14 == self.14 && post.15 == self.15 && post.16 == self.16
        &&& self.0.succeeds(i) && self.1.succeeds(i1) && self.2.succeeds(i2) && self.3.succeeds(i3) && self.4.succeeds(i4) && self.5.succeeds(i5) && self.6.succeeds(i6) && self.7.succeeds(i7) && self.8.succeeds(i8) && self.9.succeeds(i9) && !self.10.succeeds(i10) ==> post.11 == self.11 && post.12 == self.12 && post.13 == self.13 && post.14 == self.14 && post.15 == self.15 && post.16 == self.16
        &&& self.0.succeeds(i) && self.1.succeeds(i1) && self.2.succeeds(i2) && self.3.succeeds(i3) && self.4.succeeds(i4) && self.5.succeeds(i5) && self.6.succeeds(i6) && self.7.succeeds(i7) && self.8.succeeds(i8) && self.9.succeeds(i9) && self.10.succeeds(i10) && !self.11.succeeds(i11) ==> post.12 == self.12 && post.13 == self.13 && post.14 == self.14 && post.15 == self.15 && post.16 == self.16
        &&& self.0.succeeds(i) && self.1.succeeds(i1) && self.2.succeeds(i2) && self.3.succeeds(i3) && self.4.succeeds(i4) && self.5.succeeds(i5) && self.6.succeeds(i6) && self.7.succeeds(i7) && self.8.succeeds(i8) && self.9.succeeds(i9) && self.10.succeeds(i10) && self.11.succeeds(i11) && !self.12.succeeds(i12) ==> post.13 == self.13 && post.14 == self.14 && post.15 == self.15 && post.16 == self.16
        &&& self.0.succeeds(i) && self.1.succeeds(i1) && self.2.succeeds(i2) && self.3.succeeds(i3) && self.4.succeeds(i4) && self.5.succeeds(i5) && self.6.succeeds(i6) && self.7.succeeds(i7) && self.8.succeeds(i8) && self.9.succeeds(i9) && self.10.succeeds(i10) && self.11.succeeds(i11) && self.12.succeeds(i12) && !self.13.succeeds(i13) ==> post.14 == self.14 && post.15 == self.15 && post.16 == self.16
        &&& self.0.succeeds(i) && self.1.succeeds(i1) && self.2.succeeds(i2) && self.3.succeeds(i3) && self.4.succeeds(i4) && self.5.succeeds(i5) && self.6.succeeds(i6) && self.7.succeeds(i7) && self.8.succeeds(i8) && self.9.succeeds(i9) && self.10.succeeds(i10) && self.11.succeeds(i11) && self.12.succeeds(i12) && self.13.succeeds(i13) && !self.14.succeeds(i14) ==> post.15 == self.15 && post.16 == self.16
        &&& self.0.succeeds(i) && self.1.succeeds(i1) && self.2.succeeds(i2) && self.3.succeeds(i3) && self.4.succeeds(i4) && self.5.succeeds(i5) && self.6.succeeds(i6) && self.7.succeeds(i7) && self.8.succeeds(i8) && self.9.succeeds(i9) && self.10.succeeds(i10) && self.11.succeeds(i11) && self.12.succeeds(i12) && self.13.succeeds(i13) && self.14.succeeds(i14) && !self.15.succeeds(i15) ==> post.16 == self.16
    }

    proof fn remaining_no_longer(&self, i: I) {
        self.0.remaining_no_longer(i);
        let i1 = self.0.remaining(i);
        self.1.remaining_no_longer(i1);
        let i2 = self.1.remaining(i1);
        self.2.remaining_no_longer(i2);
        let i3 = self.2.remaining(i2);
        self.3.remaining_no_longer(i3);
        let i4 = self.3.remaining(i3);
        self.4.remaining_no_longer(i4);
        let i5 = self.4.remaining(i4);
        self.5.remaining_no_longer(i5);
        let i6 = self.5.remaining(i5);
        self.6.remaining_no_longer(i6);
        let i7 = self.6.remaining(i6);
        self.7.remaining_no_longer(i7);
        let i8 = self.7.remaining(i7);
        self.8.remaining_no_longer(i8);
        let i9 = self.8.remaining(i8);
        self.9.remaining_no_longer(i9);
        let i10 = self.9.remaining(i9);
        self.10.remaining_no_longer(i10);
        let i11 = self.10.remaining(i10);
        self.11.remaining_no_longer(i11);
        let i12 = self.11.remaining(i11);
        self.12.remaining_no_longer(i12);
        let i13 = self.12.remaining(i12);
        self.13.remaining_no_longer(i13);
        let i14 = self.13.remaining(i13);
        self.14.remaining_no_longer(i14);
        let i15 = self.14.remaining(i14);
        self.15.remaining_no_longer(i15);
        let i16 = self.15.remaining(i15);
        self.16.remaining_no_longer(i16);
    }

    fn parse(&mut self, i: I) -> (r: IResult<I, (FnA::Output, FnB::Output, FnC::Output, FnD::Output, FnE::Output, FnF::Output, FnG::Output, FnH::Output, FnI::Output, FnJ::Output, FnK::Output, FnL::Output, FnM::Output, FnN::Output, FnO::Output, FnP::Output, FnQ::Output), E>) {
        match self.0.parse(i) {
            Err(e) => Err(e),
            Ok((i1, o0)) => {
                match self.1.parse(i1) {
                    Err(e) => Err(e),
                    Ok((i2, o1)) => {
                        match self.2.parse(i2) {
                            Err(e) => Err(e),
                            Ok((i3, o2)) => {
                                match self.3.parse(i3) {
                                    Err(e) => Err(e),
                                    Ok((i4, o3)) => {
                                        match self.4.parse(i4) {
                                            Err(e) => Err(e),
                                            Ok((i5, o4)) => {
                                                match self.5.parse(i5) {
                                                    Err(e) => Err(e),
                                                    Ok((i6, o5)) => {
                                                        match self.6.parse(i6) {
                                                            Err(e) => Err(e),
                                                            Ok((i7, o6)) => {
                                                                match self.7.parse(i7) {
                                                                    Err(e) => Err(e),
                                                                    Ok((i8, o7)) => {
                                                                        match self.8.parse(i8) {
                                                                            Err(e) => Err(e),
                                                                            Ok((i9, o8)) => {
                                                                                match self.9.parse(i9) {
                                                                                    Err(e) => Err(e),
                                                                                    Ok((i10, o9)) => {
                                                                                        match self.10.parse(i10) {
                                                                                            Err(e) => Err(e),
                                                                                            Ok((i11, o10)) => {
                                                                                                match self.11.parse(i11) {
                                                                                                    Err(e) => Err(e),
                                                                                                    Ok((i12, o11)) => {
                                                                                                        match self.12.parse(i12) {
                                                                                                            Err(e) => Err(e),
                                                                                                            Ok((i13, o12)) => {
                                                                                                                match self.13.parse(i13) {
                                                                                                                    Err(e) => Err(e),
                                                                                                                    Ok((i14, o13)) => {
                                                                                                                        match self.14.parse(i14) {
                                                                                                                            Err(e) => Err(e),
                                                                                                                            Ok((i15, o14)) => {
                                                                                                                                match self.15.parse(i15) {
                                                                                                                                    Err(e) => Err(e),
                                                                                                                                    Ok((i16, o15)) => {
                                                                                                                                        match self.16.parse(i16) {
                                                                                                                                            Err(e) => Err(e),
                                                                                                                                            Ok((i17, o16)) => Ok((i17, (o0, o1, o2, o3, o4, o5, o6, o7, o8, o9, o10, o11, o12, o13, o14, o15, o16))),
                                                                                                                                        }
                                                                                                                                    },
                                                                                                                                }
                                                                                                                            },
                                                                                                                        }
                                                                                                                    },
                                                                                                                }
                                                                                                            },
                                                                                                        }
                                                                                                    },
                                                                                                }
                                                                                            },
                                                                                        }
                                                                                    },
                                                                                }
                                                                            },
                                                                        }
                                                                    },
                                                                }
                                                            },
                                                        }
                                                    },
                                                }
                                            },
                                        }
                                    },
                                }
                            },
                        }
                    },
                }
            },
        }
    }
}

/// Runs the 18 parsers in index order, each on what its predecessor
/// left, and yields their outputs as a 18-tuple.
impl<
    I: InputLength,
    E,
    FnA: Parser<I, E>,
    FnB: Parser<I, E>,
    FnC: Parser<I, E>,
    FnD: Parser<I, E>,
    FnE: Parser<I, E>,
    FnF: Parser<I, E>,
    FnG: Parser<I, E>,
    FnH: Parser<I, E>,
    FnI: Parser<I, E>,
    FnJ: Parser<I, E>,
    FnK: Parser<I, E>,
    FnL: Parser<I, E>,
    FnM: Parser<I, E>,
    FnN: Parser<I, E>,
    FnO: Parser<I, E>,
    FnP: Parser<I, E>,
    FnQ: Parser<I, E>,
    FnR: Parser<I, E>,
> Tuple<I, E> for (FnA, FnB, FnC, FnD, FnE, FnF, FnG, FnH, FnI, FnJ, FnK, FnL, FnM, FnN, FnO, FnP, FnQ, FnR) {
    type Output = (FnA::Output, FnB::Output, FnC::Output, FnD::Output, FnE::Output, FnF::Output, FnG::Output, FnH::Output, FnI::Output, FnJ::Output, FnK::Output, FnL::Output, FnM::Output, FnN::Output, FnO::Output, FnP::Output, FnQ::Output, FnR::Output);

    /// Every component succeeds, each on what its predecessor left.
    open spec fn succeeds(&self, i: I) -> bool {
        let i1 = self.0.remaining(i);
        let i2 = self.1.remaining(i1);
        let i3 = self.2.remaining(i2);
        let i4 = self.3.remaining(i3);
        let i5 = self.4.remaining(i4);
        let i6 = self.5.remaining(i5);
        let i7 = self.6.remaining(i6);
        let i8 = self.7.remaining(i7);
        let i9 = self.8.remaining(i8);
        let i10 = self.9.remaining(i9);
        let i11 = self.10.remaining(i10);
        let i12 = self.11.remaining(i11);
        let i13 = self.12.remaining(i12);
        let i14 = self.13.remaining(i13);
        let i15 = self.14.remaining(i14);
        let i16 = self.15.remaining(i15);
        let i17 = self.16.remaining(i16);
        &&& self.0.succeeds(i)
        &&& self.1.succeeds(i1)
        &&& self.2.succeeds(i2)
        &&& self.3.succeeds(i3)
        &&& self.4.succeeds(i4)
        &&& self.5.succeeds(i5)
        &&& self.6.succeeds(i6)
        &&& self.7.succeeds(i7)
        &&& self.8.succeeds(i8)
        &&& self.9.succeeds(i9)
        &&& self.10.succeeds(i10)
        &&& self.11.succeeds(i11)
        &&& self.12.succeeds(i12)
        &&& self.13.succeeds(i13)
        &&& self.14.succeeds(i14)
        &&& self.15.succeeds(i15)
        &&& self.16.succeeds(i16)
        &&& self.17.succeeds(i17)
    }

    /// What the last component leaves.
    open spec fn remaining(&self, i: I) -> I {
        let i1 = self.0.remaining(i);
        let i2 = self.1.remaining(i1);
        let i3 = self.2.remaining(i2);
        let i4 = self.3.remaining(i3);
        let i5 = self.4.remaining(i4);
        let i6 = self.5.remaining(i5);
        let i7 = self.6.remaining(i6);
        let i8 = self.7.remaining(i7);
        let i9 = self.8.remaining(i8);
        let i10 = self.9.remaining(i9);
        let i11 = self.10.remaining(i10);
        let i12 = self.11.remaining(i11);
        let i13 = self.12.remaining(i12);
        let i14 = self.13.remaining(i13);
        let i15 = self.14.remaining(i14);
        let i16 = self.15.remaining(i15);
        let i17 = self.16.remaining(i16);
        self.17.remaining(i17)
    }

    /// Position `k` holds an output of parser `k`, run on the cursor
    /// left by parser `k - 1`.
    open spec fn produces(&self, i: I, o: (FnA::Output, FnB::Output, FnC::Output, FnD::Output, FnE::Output, FnF::Output, FnG::Output, FnH::Output, FnI::Output, FnJ::Output, FnK::Output, FnL::Output, FnM::Output, FnN::Output, FnO::Output, FnP::Output, FnQ::Output, FnR::Output)) -> bool {
        let i1 = self.0.remaining(i);
        let i2 = self.1.remaining(i1);
        let i3 = self.2.remaining(i2);
        let i4 = self.3.remaining(i3);
        let i5 = self.4.remaining(i4);
        let i6 = self.5.remaining(i5);
        let i7 = self.6.remaining(i6);
        let i8 = self.7.remaining(i7);
        let i9 = self.8.remaining(i8);
        let i10 = self.9.remaining(i9);
        let i11 = self.10.remaining(i10);
        let i12 = self.11.remaining(i11);
        let i13 = self.12.remaining(i12);
        let i14 = self.13.remaining(i13);
        let i15 = self.14.remaining(i14);
        let i16 = self.15.remaining(i15);
        let i17 = self.16.remaining(i16);
        &&& self.0.produces(i, o.0)
        &&& self.1.produces(i1, o.1)
        &&& self.2.produces(i2, o.2)
        &&& self.3.produces(i3, o.3)
        &&& self.4.produces(i4, o.4)
        &&& self.5.produces(i5, o.5)
        &&& self.6.produces(i6, o.6)
        &&& self.7.produces(i7, o.7)
        &&& self.8.produces(i8, o.8)
        &&& self.9.produces(i9, o.9)
        &&& self.10.produces(i10, o.10)
        &&& self.11.produces(i11, o.11)
        &&& self.12.produces(i12, o.12)
        &&& self.13.produces(i13, o.13)
        &&& self.14.produces(i14, o.14)
        &&& self.15.produces(i15, o.15)
        &&& self.16.produces(i16, o.16)
        &&& self.17.produces(i17, o.17)
    }

    /// The first failing component's outcome, unchanged.
    open spec fn failure(&self, i: I) -> ParseErr<E> {
        let i1 = self.0.remaining(i);
        let i2 = self.1.remaining(i1);
        let i3 = self.2.remaining(i2);
        let i4 = self.3.remaining(i3);
        let i5 = self.4.remaining(i4);
        let i6 = self.5.remaining(i5);
        let i7 = self.6.remaining(i6);
        let i8 = self.7.remaining(i7);
        let i9 = self.8.remaining(i8);
        let i10 = self.9.remaining(i9);
        let i11 = self.10.remaining(i10);
        let i12 = self.11.remaining(i11);
        let i13 = self.12.remaining(i12);
        let i14 = self.13.remaining(i13);
        let i15 = self.14.remaining(i14);
        let i16 = self.15.remaining(i15);
        let i17 = self.16.remaining(i16);
        if !self.0.succeeds(i) {
            self.0.failure(i)
        } else if !self.1.succeeds(i1) {
            self.1.failure(i1)
        } else if !self.2.succeeds(i2) {
            self.2.failure(i2)
        } else if !self.3.succeeds(i3) {
            self.3.failure(i3)
        } else if !self.4.succeeds(i4) {
            self.4.failure(i4)
        } else if !self.5.succeeds(i5) {
            self.5.failure(i5)
        } else if !self.6.succeeds(i6) {
            self.6.failure(i6)
        } else if !self.7.succeeds(i7) {
            self.7.failure(i7)
        } else if !self.8.succeeds(i8) {
            self.8.failure(i8)
        } else if !self.9.succeeds(i9) {
            self.9.failure(i9)
        } else if !self.10.succeeds(i10) {
            self.10.failure(i10)
        } else if !self.11.succeeds(i11) {
            self.11.failure(i11)
        } else if !self.12.succeeds(i12) {
            self.12.failure(i12)
        } else if !self.13.succeeds(i13) {
            self.13.failure(i13)
        } else if !self.14.succeeds(i14) {
            self.14.failure(i14)
        } else if !self.15.succeeds(i15) {
            self.15.failure(i15)
        } else if !self.16.succeeds(i16) {
            self.16.failure(i16)
        } else {
            self.17.failure(i17)
        }
    }

    /// Fail-fast: when component `k` is the first to fail, the
    /// components after position `k` are never run.
    open spec fn untouched_on_failure(&self, post: Self, i: I) -> bool {
        let i1 = self.0.remaining(i);
        let i2 = self.1.remaining(i1);
        let i3 = self.2.remaining(i2);
        let i4 = self.3.remaining(i3);
        let i5 = self.4.remaining(i4);
        let i6 = self.5.remaining(i5);
        let i7 = self.6.remaining(i6);
        let i8 = self.7.remaining(i7);
        let i9 = self.8.remaining(i8);
        let i10 = self.9.remaining(i9);
        let i11 = self.10.remaining(i10);
        let i12 = self.11.remaining(i11);
        let i13 = self.12.remaining(i12);
        let i14 = self.13.remaining(i13);
        let i15 = self.14.remaining(i14);
        let i16 = self.15.remaining(i15);
        &&& !self.0.succeeds(i) ==> post.1 == self.1 && post.2 == self.2 && post.3 == self.3 && post.4 == self.4 && post.5 == self.5 && post.6 == self.6 && post.7 == self.7 && post.8 == self.8 && post.9 == self.9 && post.10 == self.10 && post.11 == self.11 && post.12 == self.12 && post.13 == self.13 && post.14 == self.14 && post.15 == self.15 && post.16 == self.16 && post.17 == self.17
        &&& self.0.succeeds(i) && !self.1.succeeds(i1) ==> post.2 == self.2 && post.3 == self.3 && post.4 == self.4 && post.5 == self.5 && post.6 == self.6 && post.7 == self.7 && post.8 == self.8 && post.9 == self.9 && post.10 == self.10 && post.11 == self.11 && post.12 == self.12 && post.13 == self.13 && post.14 == self.14 && post.15 == self.15 && post.16 == self.16 && post.17 == self.17
        &&& self.0.succeeds(i) && self.1.succeeds(i1) && !self.2.succeeds(i2) ==> post.3 == self.3 && post.4 == self.4 && post.5 == self.5 && post.6 == self.6 && post.7 == self.7 && post.8 == self.8 && post.9 == self.9 && post.10 == self.10 && post.11 == self.11 && post.12 == self.12 && post.13 == self.13 && post.14 == self.14 && post.15 == self.15 && post.16 == self.16 && post.17 == self.17
        &&& self.0.succeeds(i) && self.1.succeeds(i1) && self.2.succeeds(i2) && !self.3.succeeds(i3) ==> post.4 == self.4 && post.5 == self.5 && post.6 == self.6 && post.7 == self.7 && post.8 == self.8 && post.9 == self.9 && post.10 == self.10 && post.11 == self.11 && post.12 == self.12 && post.13 == self.13 && post.14 == self.14 && post.15 == self.15 && post.16 == self.16 && post.17 == self.17
        &&& self.0.succeeds(i) && self.1.succeeds(i1) && self.2.succeeds(i2) && self.3.succeeds(i3) && !self.4.succeeds(i4) ==> post.5 == self.5 && post.6 == self.6 && post.7 == self.7 && post.8 == self.8 && post.9 == self.9 && post.10 == self.10 && post.11 == self.11 && post.12 == self.12 && post.13 == self.13 && post.14 == self.14 && post.15 == self.15 && post.16 == self.16 && post.17 == self.17
        &&& self.0.succeeds(i) && self.1.succeeds(i1) && self.2.succeeds(i2) && self.3.succeeds(i3) && self.4.succeeds(i4) && !self.5.succeeds(i5) ==> post.6 == self.6 && post.7 == self.7 && post.8 == self.8 && post.9 == self.9 && post.10 == self.10 && post.11 == self.11 && post.12 == self.12 && post.13 == self.13 && post.14 == self.14 && post.15 == self.15 && post.16 == self.16 && post.17 == self.17
        &&& self.0.succeeds(i) && self.1.succeeds(i1) && self.2.succeeds(i2) && self.3.succeeds(i3) && self.4.succeeds(i4) && self.5.succeeds(i5) && !self.6.succeeds(i6) ==> post.7 == self.7 && post.8 == self.8 && post.9 == self.9 && post.10 == self.10 && post.11 == self.11 && post.12 == self.12 && post.13 == self.13 && post.14 == self.14 && post.15 == self.15 && post.16 == self.16 && post.17 == self.17
        &&& self.0.succeeds(i) && self.1.succeeds(i1) && self.2.succeeds(i2) && self.3.succeeds(i3) && self.4.succeeds(i4) && self.5.succeeds(i5) && self.6.succeeds(i6) && !self.7.succeeds(i7) ==> post.8 == self.8 && post.9 == self.9 && post.10 == self.10 && post.11 == self.11 && post.12 == self.12 && post.13 == self.13 && post.14 == self.14 && post.15 == self.15 && post.16 == self.16 && post.17 == self.17
        &&& self.0.succeeds(i) && self.1.succeeds(i1) && self.2.succeeds(i2) && self.3.succeeds(i3) && self.4.succeeds(i4) && self.5.succeeds(i5) && self.6.succeeds(i6) && self.7.succeeds(i7) && !self.8.succeeds(i8) ==> post.9 == self.9 && post.10 == self.10 && post.11 == self.11 && post.12 == self.12 && post.13 == self.13 && post.14 == self.14 && post.15 == self.15 && post.16 == self.16 && post.17 == self.17
        &&& self.0.succeeds(i) && self.1.succeeds(i1) && self.2.succeeds(i2) && self.3.succeeds(i3) && self.4.succeeds(i4) && self.5.succeeds(i5) && self.6.succeeds(i6) && self.7.succeeds(i7) && self.8.succeeds(i8) && !self.9.succeeds(i9) ==> post.10 == self.10 && post.11 == self.11 && post.12 == self.12 && post.13 == self.13 && post.14 == self.14 && post.15 == self.15 && post.16 == self.16 && post.17 == self.17
        &&& self.0.succeeds(i) && self.1.succeeds(i1) && self.2.succeeds(i2) && self.3.succeeds(i3) && self.4.succeeds(i4) && self.5.succeeds(i5) && self.6.succeeds(i6) && self.7.succeeds(i7) && self.8.succeeds(i8) && self.9.succeeds(i9) && !self.10.succeeds(i10) ==> post.11 == self.11 && post.12 == self.12 && post.13 == self.13 && post.14 == self.14 && post.15 == self.15 && post.16 == self.16 && post.17 == self.17
        &&& self.0.succeeds(i) && self.1.succeeds(i1) && self.2.succeeds(i2) && self.3.succeeds(i3) && self.4.succeeds(i4) && self.5.succeeds(i5) && self.6.succeeds(i6) && self.7.succeeds(i7) && self.8.succeeds(i8) && self.9.succeeds(i9) && self.10.succeeds(i10) && !self.11.succeeds(i11) ==> post.12 == self.12 && post.13 == self.13 && post.14 == self.14 && post.15 == self.15 && post.16 == self.16 && post.17 == self.17
        &&& self.0.succeeds(i) && self.1.succeeds(i1) && self.2.succeeds(i2) && self.3.succeeds(i3) && self.4.succeeds(i4) && self.5.succeeds(i5) && self.6.succeeds(i6) && self.7.succeeds(i7) && self.8.succeeds(i8) && self.9.succeeds(i9) && self.10.succeeds(i10) && self.11.succeeds(i11) && !self.12.succeeds(i12) ==> post.13 == self.13 && post.14 == self.14 && post.15 == self.15 && post.16 == self.16 && post.17 == self.17
        &&& self.0.succeeds(i) && self.1.succeeds(i1) && self.2.succeeds(i2) && self.3.succeeds(i3) && self.4.succeeds(i4) && self.5.succeeds(i5) && self.6.succeeds(i6) && self.7.succeeds(i7) && self.8.succeeds(i8) && self.9.succeeds(i9) && self.10.succeeds(i10) && self.11.succeeds(i11) && self.12.succeeds(i12) && !self.13.succeeds(i13) ==> post.14 == self.14 && post.15 == self.15 && post.16 == self.16 && post.17 == self.17
        &&& self.0.succeeds(i) && self.1.succeeds(i1) && self.2.succeeds(i2) && self.3.succeeds(i3) && self.4.succeeds(i4) && self.5.succeeds(i5) && self.6.succeeds(i6) && self.7.succeeds(i7) && self.8.succeeds(i8) && self.9.succeeds(i9) && self.10.succeeds(i10) && self.11.succeeds(i11) && self.12.succeeds(i12) && self.13.succeeds(i13) && !self.14.succeeds(i14) ==> post.15 == self.15 && post.16 == self.16 && post.17 == self.17
        &&& self.0.succeeds(i) && self.1.succeeds(i1) && self.2.succeeds(i2) && self.3.succeeds(i3) && self.4.succeeds(i4) && self.5.succeeds(i5) && self.6.succeeds(i6) && self.7.succeeds(i7) && self.8.succeeds(i8) && self.9.succeeds(i9) && self.10.succeeds(i10) && self.11.succeeds(i11) && self.12.succeeds(i12) && self.13.succeeds(i13) && self.14.succeeds(i14) && !self.15.succeeds(i15) ==> post.16 == self.16 && post.17 == self.17
        &&& self.0.succeeds(i) && self.1.succeeds(i1) && self.2.succeeds(i2) && self.3.succeeds(i3) && self.4.succeeds(i4) && self.5.succeeds(i5) && self.6.succeeds(i6) && self.7.succeeds(i7) && self.8.succeeds(i8) && self.9.succeeds(i9) && self.10.succeeds(i10) && self.11.succeeds(i11) && self.12.succeeds(i12) && self.13.succeeds(i13) && self.14.succeeds(i14) && self.15.succeeds(i15) && !self.16.succeeds(i16) ==> post.17 == self.17
    }

    proof fn remaining_no_longer(&self, i: I) {
        self.0.remaining_no_longer(i);
        let i1 = self.0.remaining(i);
        self.1.remaining_no_longer(i1);
        let i2 = self.1.remaining(i1);
        self.2.remaining_no_longer(i2);
        let i3 = self.2.remaining(i2);
        self.3.remaining_no_longer(i3);
        let i4 = self.3.remaining(i3);
        self.4.remaining_no_longer(i4);
        let i5 = self.4.remaining(i4);
        self.5.remaining_no_longer(i5);
        let i6 = self.5.remaining(i5);
        self.6.remaining_no_longer(i6);
        let i7 = self.6.remaining(i6);
        self.7.remaining_no_longer(i7);
        let i8 = self.7.remaining(i7);
        self.8.remaining_no_longer(i8);
        let i9 = self.8.remaining(i8);
        self.9.remaining_no_longer(i9);
        let i10 = self.9.remaining(i9);
        self.10.remaining_no_longer(i10);
        let i11 = self.10.remaining(i10);
        self.11.remaining_no_longer(i11);
        let i12 = self.11.remaining(i11);
        self.12.remaining_no_longer(i12);
        let i13 = self.12.remaining(i12);
        self.13.remaining_no_longer(i13);
        let i14 = self.13.remaining(i13);
        self.14.remaining_no_longer(i14);
        let i15 = self.14.remaining(i14);
        self.15.remaining_no_longer(i15);
        let i16 = self.15.remaining(i15);
        self.16.remaining_no_longer(i16);
        let i17 = self.16.remaining(i16);
        self.17.remaining_no_longer(i17);
    }

    fn parse(&mut self, i: I) -> (r: IResult<I, (FnA::Output, FnB::Output, FnC::Output, FnD::Output, FnE::Output, FnF::Output, FnG::Output, FnH::Output, FnI::Output, FnJ::Output, FnK::Output, FnL::Output, FnM::Output, FnN::Output, FnO::Output, FnP::Output, FnQ::Output, FnR::Output), E>) {
        match self.0.parse(i) {
            Err(e) => Err(e),
            Ok((i1, o0)) => {
                match self.1.parse(i1) {
                    Err(e) => Err(e),
                    Ok((i2, o1)) => {
                        match self.2.parse(i2) {
                            Err(e) => Err(e),
                            Ok((i3, o2)) => {
                                match self.3.parse(i3) {
                                    Err(e) => Err(e),
                                    Ok((i4, o3)) => {
                                        match self.4.parse(i4) {
                                            Err(e) => Err(e),
                                            Ok((i5, o4)) => {
                                                match self.5.parse(i5) {
                                                    Err(e) => Err(e),
                                                    Ok((i6, o5)) => {
                                                        match self.6.parse(i6) {
                                                            Err(e) => Err(e),
                                                            Ok((i7, o6)) => {
                                                                match self.7.parse(i7) {
                                                                    Err(e) => Err(e),
                                                                    Ok((i8, o7)) => {
                                                                        match self.8.parse(i8) {
                                                                            Err(e) => Err(e),
                                                                            Ok((i9, o8)) => {
                                                                                match self.9.parse(i9) {
                                                                                    Err(e) => Err(e),
                                                                                    Ok((i10, o9)) => {
                                                                                        match self.10.parse(i10) {
                                                                                            Err(e) => Err(e),
                                                                                            Ok((i11, o10)) => {
                                                                                                match self.11.parse(i11) {
                                                                                                    Err(e) => Err(e),
                                                                                                    Ok((i12, o11)) => {
                                                                                                        match self.12.parse(i12) {
                                                                                                            Err(e) => Err(e),
                                                                                                            Ok((i13, o12)) => {
                                                                                                                match self.13.parse(i13) {
                                                                                                                    Err(e) => Err(e),
                                                                                                                    Ok((i14, o13)) => {
                                                                                                                        match self.14.parse(i14) {
                                                                                                                            Err(e) => Err(e),
                                                                                                                            Ok((i15, o14)) => {
                                                                                                                                match self.15.parse(i15) {
                                                                                                                                    Err(e) => Err(e),
                                                                                                                                    Ok((i16, o15)) => {
                                                                                                                                        match self.16.parse(i16) {
                                                                                                                                            Err(e) => Err(e),
                                                                                                                                            Ok((i17, o16)) => {
                                                                                                                                                match self.17.parse(i17) {
                                                                                                                                                    Err(e) => Err(e),
                                                                                                                                                    Ok((i18, o17)) => Ok((i18, (o0, o1, o2, o3, o4, o5, o6, o7, o8, o9, o10, o11, o12, o13, o14, o15, o16, o17))),
                                                                                                                                                }
                                                                                                                                            },
                                                                                                                                        }
                                                                                                                                    },
                                                                                                                                }
                                                                                                                            },
                                                                                                                        }
                                                                                                                    },
                                                                                                                }
                                                                                                            },
                                                                                                        }
                                                                                                    },
                                                                                                }
                                                                                            },
                                                                                        }
                                                                                    },
                                                                                }
                                                                            },
                                                                        }
                                                                    },
                                                                }
                                                            },
                                                        }
                                                    },
                                                }
                                            },
                                        }
                                    },
                                }
                            },
                        }
                    },
                }
            },
        }
    }
}

/// Runs the 19 parsers in index order, each on what its predecessor
/// left, and yields their outputs as a 19-tuple.
impl<
    I: InputLength,
    E,
    FnA: Parser<I, E>,
    FnB: Parser<I, E>,
    FnC: Parser<I, E>,
    FnD: Parser<I, E>,
    FnE: Parser<I, E>,
    FnF: Parser<I, E>,
    FnG: Parser<I, E>,
    FnH: Parser<I, E>,
    FnI: Parser<I, E>,
    FnJ: Parser<I, E>,
    FnK: Parser<I, E>,
    FnL: Parser<I, E>,
    FnM: Parser<I, E>,
    FnN: Parser<I, E>,
    FnO: Parser<I, E>,
    FnP: Parser<I, E>,
    FnQ: Parser<I, E>,
    FnR: Parser<I, E>,
    FnS: Parser<I, E>,
> Tuple<I, E> for (FnA, FnB, FnC, FnD, FnE, FnF, FnG, FnH, FnI, FnJ, FnK, FnL, FnM, FnN, FnO, FnP, FnQ, FnR, FnS) {
    type Output = (FnA::Output, FnB::Output, FnC::Output, FnD::Output, FnE::Output, FnF::Output, FnG::Output, FnH::Output, FnI::Output, FnJ::Output, FnK::Output, FnL::Output, FnM::Output, FnN::Output, FnO::Output, FnP::Output, FnQ::Output, FnR::Output, FnS::Output);

    /// Every component succeeds, each on what its predecessor left.
    open spec fn succeeds(&self, i: I) -> bool {
        let i1 = self.0.remaining(i);
        let i2 = self.1.remaining(i1);
        let i3 = self.2.remaining(i2);
        let i4 = self.3.remaining(i3);
        let i5 = self.4.remaining(i4);
        let i6 = self.5.remaining(i5);
        let i7 = self.6.remaining(i6);
        let i8 = self.7.remaining(i7);
        let i9 = self.8.remaining(i8);
        let i10 = self.9.remaining(i9);
        let i11 = self.10.remaining(i10);
        let i12 = self.11.remaining(i11);
        let i13 = self.12.remaining(i12);
        let i14 = self.13.remaining(i13);
        let i15 = self.14.remaining(i14);
        let i16 = self.15.remaining(i15);
        let i17 = self.16.remaining(i16);
        let i18 = self.17.remaining(i17);
        &&& self.0.succeeds(i)
        &&& self.1.succeeds(i1)
        &&& self.2.succeeds(i2)
        &&& self.3.succeeds(i3)
        &&& self.4.succeeds(i4)
        &&& self.5.succeeds(i5)
        &&& self.6.succeeds(i6)
        &&& self.7.succeeds(i7)
        &&& self.8.succeeds(i8)
        &&& self.9.succeeds(i9)
        &&& self.10.succeeds(i10)
        &&& self.11.succeeds(i11)
        &&& self.12.succeeds(i12)
        &&& self.13.succeeds(i13)
        &&& self.14.succeeds(i14)
        &&& self.15.succeeds(i15)
        &&& self.16.succeeds(i16)
        &&& self.17.succeeds(i17)
        &&& self.18.succeeds(i18)
    }

    /// What the last component leaves.
    open spec fn remaining(&self, i: I) -> I {
        let i1 = self.0.remaining(i);
        let i2 = self.1.remaining(i1);
        let i3 = self.2.remaining(i2);
        let i4 = self.3.remaining(i3);
        let i5 = self.4.remaining(i4);
        let i6 = self.5.remaining(i5);
        let i7 = self.6.remaining(i6);
        let i8 = self.7.remaining(i7);
        let i9 = self.8.remaining(i8);
        let i10 = self.9.remaining(i9);
        let i11 = self.10.remaining(i10);
        let i12 = self.11.remaining(i11);
        let i13 = self.12.remaining(i12);
        let i14 = self.13.remaining(i13);
        let i15 = self.14.remaining(i14);
        let i16 = self.15.remaining(i15);
        let i17 = self.16.remaining(i16);
        let i18 = self.17.remaining(i17);
        self.18.remaining(i18)
    }

    /// Position `k` holds an output of parser `k`, run on the cursor
    /// left by parser `k - 1`.
    open spec fn produces(&self, i: I, o: (FnA::Output, FnB::Output, FnC::Output, FnD::Output, FnE::Output, FnF::Output, FnG::Output, FnH::Output, FnI::Output, FnJ::Output, FnK::Output, FnL::Output, FnM::Output, FnN::Output, FnO::Output, FnP::Output, FnQ::Output, FnR::Output, FnS::Output)) -> bool {
        let i1 = self.0.remaining(i);
        let i2 = self.1.remaining(i1);
        let i3 = self.2.remaining(i2);
        let i4 = self.3.remaining(i3);
        let i5 = self.4.remaining(i4);
        let i6 = self.5.remaining(i5);
        let i7 = self.6.remaining(i6);
        let i8 = self.7.remaining(i7);
        let i9 = self.8.remaining(i8);
        let i10 = self.9.remaining(i9);
        let i11 = self.10.remaining(i10);
        let i12 = self.11.remaining(i11);
        let i13 = self.12.remaining(i12);
        let i14 = self.13.remaining(i13);
        let i15 = self.14.remaining(i14);
        let i16 = self.15.remaining(i15);
        let i17 = self.16.remaining(i16);
        let i18 = self.17.remaining(i17);
        &&& self.0.produces(i, o.0)
        &&& self.1.produces(i1, o.1)
        &&& self.2.produces(i2, o.2)
        &&& self.3.produces(i3, o.3)
        &&& self.4.produces(i4, o.4)
        &&& self.5.produces(i5, o.5)
        &&& self.6.produces(i6, o.6)
        &&& self.7.produces(i7, o.7)
        &&& self.8.produces(i8, o.8)
        &&& self.9.produces(i9, o.9)
        &&& self.10.produces(i10, o.10)
        &&& self.11.produces(i11, o.11)
        &&& self.12.produces(i12, o.12)
        &&& self.13.produces(i13, o.13)
        &&& self.14.produces(i14, o.14)
        &&& self.15.produces(i15, o.15)
        &&& self.16.produces(i16, o.16)
        &&& self.17.produces(i17, o.17)
        &&& self.18.produces(i18, o.18)
    }

    /// The first failing component's outcome, unchanged.
    open spec fn failure(&self, i: I) -> ParseErr<E> {
        let i1 = self.0.remaining(i);
        let i2 = self.1.remaining(i1);
        let i3 = self.2.remaining(i2);
        let i4 = self.3.remaining(i3);
        let i5 = self.4.remaining(i4);
        let i6 = self.5.remaining(i5);
        let i7 = self.6.remaining(i6);
        let i8 = self.7.remaining(i7);
        let i9 = self.8.remaining(i8);
        let i10 = self.9.remaining(i9);
        let i11 = self.10.remaining(i10);
        let i12 = self.11.remaining(i11);
        let i13 = self.12.remaining(i12);
        let i14 = self.13.remaining(i13);
        let i15 = self.14.remaining(i14);
        let i16 = self.15.remaining(i15);
        let i17 = self.16.remaining(i16);
        let i18 = self.17.remaining(i17);
        if !self.0.succeeds(i) {
            self.0.failure(i)
        } else if !self.1.succeeds(i1) {
            self.1.failure(i1)
        } else if !self.2.succeeds(i2) {
            self.2.failure(i2)
        } else if !self.3.succeeds(i3) {
            self.3.failure(i3)
        } else if !self.4.succeeds(i4) {
            self.4.failure(i4)
        } else if !self.5.succeeds(i5) {
            self.5.failure(i5)
        } else if !self.6.succeeds(i6) {
            self.6.failure(i6)
        } else if !self.7.succeeds(i7) {
            self.7.failure(i7)
        } else if !self.8.succeeds(i8) {
            self.8.failure(i8)
        } else if !self.9.succeeds(i9) {
            self.9.failure(i9)
        } else if !self.10.succeeds(i10) {
            self.10.failure(i10)
        } else if !self.11.succeeds(i11) {
            self.11.failure(i11)
        } else if !self.12.succeeds(i12) {
            self.12.failure(i12)
        } else if !self.13.succeeds(i13) {
            self.13.failure(i13)
        } else if !self.14.succeeds(i14) {
            self.14.failure(i14)
        } else if !self.15.succeeds(i15) {
            self.15.failure(i15)
        } else if !self.16.succeeds(i16) {
            self.16.failure(i16)
        } else if !self.17.succeeds(i17) {
            self.17.failure(i17)
        } else {
            self.18.failure(i18)
        }
    }

    /// Fail-fast: when component `k` is the first to fail, the
    /// components after position `k` are never run.
    open spec fn untouched_on_failure(&self, post: Self, i: I) -> bool {
        let i1 = self.0.remaining(i);
        let i2 = self.1.remaining(i1);
        let i3 = self.2.remaining(i2);
        let i4 = self.3.remaining(i3);
        let i5 = self.4.remaining(i4);
        let i6 = self.5.remaining(i5);
        let i7 = self.6.remaining(i6);
        let i8 = self.7.remaining(i7);
        let i9 = self.8.remaining(i8);
        let i10 = self.9.remaining(i9);
        let i11 = self.10.remaining(i10);
        let i12 = self.11.remaining(i11);
        let i13 = self.12.remaining(i12);
        let i14 = self.13.remaining(i13);
        let i15 = self.14.remaining(i14);
        let i16 = self.15.remaining(i15);
        let i17 = self.16.remaining(i16);
        &&& !self.0.succeeds(i) ==> post.1 == self.1 && post.2 == self.2 && post.3 == self.3 && post.4 == self.4 && post.5 == self.5 && post.6 == self.6 && post.7 == self.7 && post.8 == self.8 && post.9 == self.9 && post.10 == self.10 && post.11 == self.11 && post.12 == self.12 && post.13 == self.13 && post.14 == self.14 && post.15 == self.15 && post.16 == self.16 && post.17 == self.17 && post.18 == self.18
        &&& self.0.succeeds(i) && !self.1.succeeds(i1) ==> post.2 == self.2 && post.3 == self.3 && post.4 == self.4 && post.5 == self.5 && post.6 == self.6 && post.7 == self.7 && post.8 == self.8 && post.9 == self.9 && post.10 == self.10 && post.11 == self.11 && post.12 == self.12 && post.13 == self.13 && post.14 == self.14 && post.15 == self.15 && post.16 == self.16 && post.17 == self.17 && post.18 == self.18
        &&& self.0.succeeds(i) && self.1.succeeds(i1) && !self.2.succeeds(i2) ==> post.3 == self.3 && post.4 == self.4 && post.5 == self.5 && post.6 == self.6 && post.7 == self.7 && post.8 == self.8 && post.9 == self.9 && post.10 == self.10 && post.11 == self.11 && post.12 == self.12 && post.13 == self.13 && post.14 == self.14 && post.15 == self.15 && post.16 == self.16 && post.17 == self.17 && post.18 == self.18
        &&& self.0.succeeds(i) && self.1.succeeds(i1) && self.2.succeeds(i2) && !self.3.succeeds(i3) ==> post.4 == self.4 && post.5 == self.5 && post.6 == self.6 && post.7 == self.7 && post.8 == self.8 && post.9 == self.9 && post.10 == self.10 && post.11 == self.11 && post.12 == self.12 && post.13 == self.13 && post.14 == self.14 && post.15 == self.15 && post.16 == self.16 && post.17 == self.17 && post.18 == self.18
        &&& self.0.succeeds(i) && self.1.succeeds(i1) && self.2.succeeds(i2) && self.3.succeeds(i3) && !self.4.succeeds(i4) ==> post.5 == self.5 && post.6 == self.6 && post.7 == self.7 && post.8 == self.8 && post.9 == self.9 && post.10 == self.10 && post.11 == self.11 && post.12 == self.12 && post.13 == self.13 && post.14 == self.14 && post.15 == self.15 && post.16 == self.16 && post.17 == self.17 && post.18 == self.18
        &&& self.0.succeeds(i) && self.1.succeeds(i1) && self.2.succeeds(i2) && self.3.succeeds(i3) && self.4.succeeds(i4) && !self.5.succeeds(i5) ==> post.6 == self.6 && post.7 == self.7 && post.8 == self.8 && post.9 == self.9 && post.10 == self.10 && post.11 == self.11 && post.12 == self.12 && post.13 == self.13 && post.14 == self.14 && post.15 == self.15 && post.16 == self.16 && post.17 == self.17 && post.18 == self.18
        &&& self.0.succeeds(i) && self.1.succeeds(i1) && self.2.succeeds(i2) && self.3.succeeds(i3) && self.4.succeeds(i4) && self.5.succeeds(i5) && !self.6.succeeds(i6) ==> post.7 == self.7 && post.8 == self.8 && post.9 == self.9 && post.10 == self.10 && post.11 == self.11 && post.12 == self.12 && post.13 == self.13 && post.14 == self.14 && post.15 == self.15 && post.16 == self.16 && post.17 == self.17 && post.18 == self.18
        &&& self.0.succeeds(i) && self.1.succeeds(i1) && self.2.succeeds(i2) && self.3.succeeds(i3) && self.4.succeeds(i4) && self.5.succeeds(i5) && self.6.succeeds(i6) && !self.7.succeeds(i7) ==> post.8 == self.8 && post.9 == self.9 && post.10 == self.10 && post.11 == self.11 && post.12 == self.12 && post.13 == self.13 && post.14 == self.14 && post.15 == self.15 && post.16 == self.16 && post.17 == self.17 && post.18 == self.18
        &&& self.0.succeeds(i) && self.1.succeeds(i1) && self.2.succeeds(i2) && self.3.succeeds(i3) && self.4.succeeds(i4) && self.5.succeeds(i5) && self.6.succeeds(i6) && self.7.succeeds(i7) && !self.8.succeeds(i8) ==> post.9 == self.9 && post.10 == self.10 && post.11 == self.11 && post.12 == self.12 && post.13 == self.13 && post.14 == self.14 && post.15 == self.15 && post.16 == self.16 && post.17 == self.17 && post.18 == self.18
        &&& self.0.succeeds(i) && self.1.succeeds(i1) && self.2.succeeds(i2) && self.3.succeeds(i3) && self.4.succeeds(i4) && self.5.succeeds(i5) && self.6.succeeds(i6) && self.7.succeeds(i7) && self.8.succeeds(i8) && !self.9.succeeds(i9) ==> post.10 == self.10 && post.11 == self.11 && post.12 == self.12 && post.13 == self.13 && post.14 == self.14 && post.15 == self.15 && post.16 == self.16 && post.17 == self.17 && post.18 == self.18
        &&& self.0.succeeds(i) && self.1.succeeds(i1) && self.2.succeeds(i2) && self.3.succeeds(i3) && self.4.succeeds(i4) && self.5.succeeds(i5) && self.6.succeeds(i6) && self.7.succeeds(i7) && self.8.succeeds(i8) && self.9.succeeds(i9) && !self.10.succeeds(i10) ==> post.11 == self.11 && post.12 == self.12 && post.13 == self.13 && post.14 == self.14 && post.15 == self.15 && post.16 == self.16 && post.17 == self.17 && post.18 == self.18
        &&& self.0.succeeds(i) && self.1.succeeds(i1) && self.2.succeeds(i2) && self.3.succeeds(i3) && self.4.succeeds(i4) && self.5.succeeds(i5) && self.6.succeeds(i6) && self.7.succeeds(i7) && self.8.succeeds(i8) && self.9.succeeds(i9) && self.10.succeeds(i10) && !self.11.succeeds(i11) ==> post.12 == self.12 && post.13 == self.13 && post.14 == self.14 && post.15 == self.15 && post.16 == self.16 && post.17 == self.17 && post.18 == self.18
        &&& self.0.succeeds(i) && self.1.succeeds(i1) && self.2.succeeds(i2) && self.3.succeeds(i3) && self.4.succeeds(i4) && self.5.succeeds(i5) && self.6.succeeds(i6) && self.7.succeeds(i7) && self.8.succeeds(i8) && self.9.succeeds(i9) && self.10.succeeds(i10) && self.11.succeeds(i11) && !self.12.succeeds(i12) ==> post.13 == self.13 && post.14 == self.14 && post.15 == self.15 && post.16 == self.16 && post.17 == self.17 && post.18 == self.18
        &&& self.0.succeeds(i) && self.1.succeeds(i1) && self.2.succeeds(i2) && self.3.succeeds(i3) && self.4.succeeds(i4) && self.5.succeeds(i5) && self.6.succeeds(i6) && self.7.succeeds(i7) && self.8.succeeds(i8) && self.9.succeeds(i9) && self.10.succeeds(i10) && self.11.succeeds(i11) && self.12.succeeds(i12) && !self.13.succeeds(i13) ==> post.14 == self.14 && post.15 == self.15 && post.16 == self.16 && post.17 == self.17 && post.18 == self.18
        &&& self.0.succeeds(i) && self.1.succeeds(i1) && self.2.succeeds(i2) && self.3.succeeds(i3) && self.4.succeeds(i4) && self.5.succeeds(i5) && self.6.succeeds(i6) && self.7.succeeds(i7) && self.8.succeeds(i8) && self.9.succeeds(i9) && self.10.succeeds(i10) && self.11.succeeds(i11) && self.12.succeeds(i12) && self.13.succeeds(i13) && !self.14.succeeds(i14) ==> post.15 == self.15 && post.16 == self.16 && post.17 == self.17 && post.18 == self.18
        &&& self.0.succeeds(i) && self.1.succeeds(i1) && self.2.succeeds(i2) && self.3.succeeds(i3) && self.4.succeeds(i4) && self.5.succeeds(i5) && self.6.succeeds(i6) && self.7.succeeds(i7) && self.8.succeeds(i8) && self.9.succeeds(i9) && self.10.succeeds(i10) && self.11.succeeds(i11) && self.12.succeeds(i12) && self.13.succeeds(i13) && self.14.succeeds(i14) && !self.15.succeeds(i15) ==> post.16 == self.16 && post.17 == self.17 && post.18 == self.18
        &&& self.0.succeeds(i) && self.1.succeeds(i1) && self.2.succeeds(i2) && self.3.succeeds(i3) && self.4.succeeds(i4) && self.5.succeeds(i5) && self.6.succeeds(i6) && self.7.succeeds(i7) && self.8.succeeds(i8) && self.9.succeeds(i9) && self.10.succeeds(i10) && self.11.succeeds(i11) && self.12.succeeds(i12) && self.13.succeeds(i13) && self.14.succeeds(i14) && self.15.succeeds(i15) && !self.16.succeeds(i16) ==> post.17 == self.17 && post.18 == self.18
        &&& self.0.succeeds(i) && self.1.succeeds(i1) && self.2.succeeds(i2) && self.3.succeeds(i3) && self.4.succeeds(i4) && self.5.succeeds(i5) && self.6.succeeds(i6) && self.7.succeeds(i7) && self.8.succeeds(i8) && self.9.succeeds(i9) && self.10.succeeds(i10) && self.11.succeeds(i11) && self.12.succeeds(i12) && self.13.succeeds(i13) && self.14.succeeds(i14) && self.15.succeeds(i15) && self.16.succeeds(i16) && !self.17.succeeds(i17) ==> post.18 == self.18
    }

    proof fn remaining_no_longer(&self, i: I) {
        self.0.remaining_no_longer(i);
        let i1 = self.0.remaining(i);
        self.1.remaining_no_longer(i1);
        let i2 = self.1.remaining(i1);
        self.2.remaining_no_longer(i2);
        let i3 = self.2.remaining(i2);
        self.3.remaining_no_longer(i3);
        let i4 = self.3.remaining(i3);
        self.4.remaining_no_longer(i4);
        let i5 = self.4.remaining(i4);
        self.5.remaining_no_longer(i5);
        let i6 = self.5.remaining(i5);
        self.6.remaining_no_longer(i6);
        let i7 = self.6.remaining(i6);
        self.7.remaining_no_longer(i7);
        let i8 = self.7.remaining(i7);
        self.8.remaining_no_longer(i8);
        let i9 = self.8.remaining(i8);
        self.9.remaining_no_longer(i9);
        let i10 = self.9.remaining(i9);
        self.10.remaining_no_longer(i10);
        let i11 = self.10.remaining(i10);
        self.11.remaining_no_longer(i11);
        let i12 = self.11.remaining(i11);
        self.12.remaining_no_longer(i12);
        let i13 = self.12.remaining(i12);
        self.13.remaining_no_longer(i13);
        let i14 = self.13.remaining(i13);
        self.14.remaining_no_longer(i14);
        let i15 = self.14.remaining(i14);
        self.15.remaining_no_longer(i15);
        let i16 = self.15.remaining(i15);
        self.16.remaining_no_longer(i16);
        let i17 = self.16.remaining(i16);
        self.17.remaining_no_longer(i17);
        let i18 = self.17.remaining(i17);
        self.18.remaining_no_longer(i18);
    }

    fn parse(&mut self, i: I) -> (r: IResult<I, (FnA::Output, FnB::Output, FnC::Output, FnD::Output, FnE::Output, FnF::Output, FnG::Output, FnH::Output, FnI::Output, FnJ::Output, FnK::Output, FnL::Output, FnM::Output, FnN::Output, FnO::Output, FnP::Output, FnQ::Output, FnR::Output, FnS::Output), E>) {
        match self.0.parse(i) {
            Err(e) => Err(e),
            Ok((i1, o0)) => {
                match self.1.parse(i1) {
                    Err(e) => Err(e),
                    Ok((i2, o1)) => {
                        match self.2.parse(i2) {
                            Err(e) => Err(e),
                            Ok((i3, o2)) => {
                                match self.3.parse(i3) {
                                    Err(e) => Err(e),
                                    Ok((i4, o3)) => {
                                        match self.4.parse(i4) {
                                            Err(e) => Err(e),
                                            Ok((i5, o4)) => {
                                                match self.5.parse(i5) {
                                                    Err(e) => Err(e),
                                                    Ok((i6, o5)) => {
                                                        match self.6.parse(i6) {
                                                            Err(e) => Err(e),
                                                            Ok((i7, o6)) => {
                                                                match self.7.parse(i7) {
                                                                    Err(e) => Err(e),
                                                                    Ok((i8, o7)) => {
                                                                        match self.8.parse(i8) {
                                                                            Err(e) => Err(e),
                                                                            Ok((i9, o8)) => {
                                                                                match self.9.parse(i9) {
                                                                                    Err(e) => Err(e),
                                                                                    Ok((i10, o9)) => {
                                                                                        match self.10.parse(i10) {
                                                                                            Err(e) => Err(e),
                                                                                            Ok((i11, o10)) => {
                                                                                                match self.11.parse(i11) {
                                                                                                    Err(e) => Err(e),
                                                                                                    Ok((i12, o11)) => {
                                                                                                        match self.12.parse(i12) {
                                                                                                            Err(e) => Err(e),
                                                                                                            Ok((i13, o12)) => {
                                                                                                                match self.13.parse(i13) {
                                                                                                                    Err(e) => Err(e),
                                                                                                                    Ok((i14, o13)) => {
                                                                                                                        match self.14.parse(i14) {
                                                                                                                            Err(e) => Err(e),
                                                                                                                            Ok((i15, o14)) => {
                                                                                                                                match self.15.parse(i15) {
                                                                                                                                    Err(e) => Err(e),
                                                                                                                                    Ok((i16, o15)) => {
                                                                                                                                        match self.16.parse(i16) {
                                                                                                                                            Err(e) => Err(e),
                                                                                                                                            Ok((i17, o16)) => {
                                                                                                                                                match self.17.parse(i17) {
                                                                                                                                                    Err(e) => Err(e),
                                                                                                                                                    Ok((i18, o17)) => {
                                                                                                                                                        match self.18.parse(i18) {
                                                                                                                                                            Err(e) => Err(e),
                                                                                                                                                            Ok((i19, o18)) => Ok((i19, (o0, o1, o2, o3, o4, o5, o6, o7, o8, o9, o10, o11, o12, o13, o14, o15, o16, o17, o18))),
                                                                                                                                                        }
                                                                                                                                                    },
                                                                                                                                                }
                                                                                                                                            },
                                                                                                                                        }
                                                                                                                                    },
                                                                                                                                }
                                                                                                                            },
                                                                                                                        }
                                                                                                                    },
                                                                                                                }
                                                                                                            },
                                                                                                        }
                                                                                                    },
                                                                                                }
                                                                                            },
                                                                                        }
                                                                                    },
                                                                                }
                                                                            },
                                                                        }
                                                                    },
                                                                }
                                                            },
                                                        }
                                                    },
                                                }
                                            },
                                        }
                                    },
                                }
                            },
                        }
                    },
                }
            },
        }
    }
}

/// Runs the 20 parsers in index order, each on what its predecessor
/// left, and yields their outputs as a 20-tuple.
impl<
    I: InputLength,
    E,
    FnA: Parser<I, E>,
    FnB: Parser<I, E>,
    FnC: Parser<I, E>,
    FnD: Parser<I, E>,
    FnE: Parser<I, E>,
    FnF: Parser<I, E>,
    FnG: Parser<I, E>,
    FnH: Parser<I, E>,
    FnI: Parser<I, E>,
    FnJ: Parser<I, E>,
    FnK: Parser<I, E>,
    FnL: Parser<I, E>,
    FnM: Parser<I, E>,
    FnN: Parser<I, E>,
    FnO: Parser<I, E>,
    FnP: Parser<I, E>,
    FnQ: Parser<I, E>,
    FnR: Parser<I, E>,
    FnS: Parser<I, E>,
    FnT: Parser<I, E>,
> Tuple<I, E> for (FnA, FnB, FnC, FnD, FnE, FnF, FnG, FnH, FnI, FnJ, FnK, FnL, FnM, FnN, FnO, FnP, FnQ, FnR, FnS, FnT) {
    type Output = (FnA::Output, FnB::Output, FnC::Output, FnD::Output, FnE::Output, FnF::Output, FnG::Output, FnH::Output, FnI::Output, FnJ::Output, FnK::Output, FnL::Output, FnM::Output, FnN::Output, FnO::Output, FnP::Output, FnQ::Output, FnR::Output, FnS::Output, FnT::Output);

    /// Every component succeeds, each on what its predecessor left.
    open spec fn succeeds(&self, i: I) -> bool {
        let i1 = self.0.remaining(i);
        let i2 = self.1.remaining(i1);
        let i3 = self.2.remaining(i2);
        let i4 = self.3.remaining(i3);
        let i5 = self.4.remaining(i4);
        let i6 = self.5.remaining(i5);
        let i7 = self.6.remaining(i6);
        let i8 = self.7.remaining(i7);
        let i9 = self.8.remaining(i8);
        let i10 = self.9.remaining(i9);
        let i11 = self.10.remaining(i10);
        let i12 = self.11.remaining(i11);
        let i13 = self.12.remaining(i12);
        let i14 = self.13.remaining(i13);
        let i15 = self.14.remaining(i14);
        let i16 = self.15.remaining(i15);
        let i17 = self.16.remaining(i16);
        let i18 = self.17.remaining(i17);
        let i19 = self.18.remaining(i18);
        &&& self.0.succeeds(i)
        &&& self.1.succeeds(i1)
        &&& self.2.succeeds(i2)
        &&& self.3.succeeds(i3)
        &&& self.4.succeeds(i4)
        &&& self.5.succeeds(i5)
        &&& self.6.succeeds(i6)
        &&& self.7.succeeds(i7)
        &&& self.8.succeeds(i8)
        &&& self.9.succeeds(i9)
        &&& self.10.succeeds(i10)
        &&& self.11.succeeds(i11)
        &&& self.12.succeeds(i12)
        &&& self.13.succeeds(i13)
        &&& self.14.succeeds(i14)
        &&& self.15.succeeds(i15)
        &&& self.16.succeeds(i16)
        &&& self.17.succeeds(i17)
        &&& self.18.succeeds(i18)
        &&& self.19.succeeds(i19)
    }

    /// What the last component leaves.
    open spec fn remaining(&self, i: I) -> I {
        let i1 = self.0.remaining(i);
        let i2 = self.1.remaining(i1);
        let i3 = self.2.remaining(i2);
        let i4 = self.3.remaining(i3);
        let i5 = self.4.remaining(i4);
        let i6 = self.5.remaining(i5);
        let i7 = self.6.remaining(i6);
        let i8 = self.7.remaining(i7);
        let i9 = self.8.remaining(i8);
        let i10 = self.9.remaining(i9);
        let i11 = self.10.remaining(i10);
        let i12 = self.11.remaining(i11);
        let i13 = self.12.remaining(i12);
        let i14 = self.13.remaining(i13);
        let i15 = self.14.remaining(i14);
        let i16 = self.15.remaining(i15);
        let i17 = self.16.remaining(i16);
        let i18 = self.17.remaining(i17);
        let i19 = self.18.remaining(i18);
        self.19.remaining(i19)
    }

    /// Position `k` holds an output of parser `k`, run on the cursor
    /// left by parser `k - 1`.
    open spec fn produces(&self, i: I, o: (FnA::Output, FnB::Output, FnC::Output, FnD::Output, FnE::Output, FnF::Output, FnG::Output, FnH::Output, FnI::Output, FnJ::Output, FnK::Output, FnL::Output, FnM::Output, FnN::Output, FnO::Output, FnP::Output, FnQ::Output, FnR::Output, FnS::Output, FnT::Output)) -> bool {
        let i1 = self.0.remaining(i);
        let i2 = self.1.remaining(i1);
        let i3 = self.2.remaining(i2);
        let i4 = self.3.remaining(i3);
        let i5 = self.4.remaining(i4);
        let i6 = self.5.remaining(i5);
        let i7 = self.6.remaining(i6);
        let i8 = self.7.remaining(i7);
        let i9 = self.8.remaining(i8);
        let i10 = self.9.remaining(i9);
        let i11 = self.10.remaining(i10);
        let i12 = self.11.remaining(i11);
        let i13 = self.12.remaining(i12);
        let i14 = self.13.remaining(i13);
        let i15 = self.14.remaining(i14);
        let i16 = self.15.remaining(i15);
        let i17 = self.16.remaining(i16);
        let i18 = self.17.remaining(i17);
        let i19 = self.18.remaining(i18);
        &&& self.0.produces(i, o.0)
        &&& self.1.produces(i1, o.1)
        &&& self.2.produces(i2, o.2)
        &&& self.3.produces(i3, o.3)
        &&& self.4.produces(i4, o.4)
        &&& self.5.produces(i5, o.5)
        &&& self.6.produces(i6, o.6)
        &&& self.7.produces(i7, o.7)
        &&& self.8.produces(i8, o.8)
        &&& self.9.produces(i9, o.9)
        &&& self.10.produces(i10, o.10)
        &&& self.11.produces(i11, o.11)
        &&& self.12.produces(i12, o.12)
        &&& self.13.produces(i13, o.13)
        &&& self.14.produces(i14, o.14)
        &&& self.15.produces(i15, o.15)
        &&& self.16.produces(i16, o.16)
        &&& self.17.produces(i17, o.17)
        &&& self.18.produces(i18, o.18)
        &&& self.19.produces(i19, o.19)
    }

    /// The first failing component's outcome, unchanged.
    open spec fn failure(&self, i: I) -> ParseErr<E> {
        let i1 = self.0.remaining(i);
        let i2 = self.1.remaining(i1);
        let i3 = self.2.remaining(i2);
        let i4 = self.3.remaining(i3);
        let i5 = self.4.remaining(i4);
        let i6 = self.5.remaining(i5);
        let i7 = self.6.remaining(i6);
        let i8 = self.7.remaining(i7);
        let i9 = self.8.remaining(i8);
        let i10 = self.9.remaining(i9);
        let i11 = self.10.remaining(i10);
        let i12 = self.11.remaining(i11);
        let i13 = self.12.remaining(i12);
        let i14 = self.13.remaining(i13);
        let i15 = self.14.remaining(i14);
        let i16 = self.15.remaining(i15);
        let i17 = self.16.remaining(i16);
        let i18 = self.17.remaining(i17);
        let i19 = self.18.remaining(i18);
        if !self.0.succeeds(i) {
            self.0.failure(i)
        } else if !self.1.succeeds(i1) {
            self.1.failure(i1)
        } else if !self.2.succeeds(i2) {
            self.2.failure(i2)
        } else if !self.3.succeeds(i3) {
            self.3.failure(i3)
        } else if !self.4.succeeds(i4) {
            self.4.failure(i4)
        } else if !self.5.succeeds(i5) {
            self.5.failure(i5)
        } else if !self.6.succeeds(i6) {
            self.6.failure(i6)
        } else if !self.7.succeeds(i7) {
            self.7.failure(i7)
        } else if !self.8.succeeds(i8) {
            self.8.failure(i8)
        } else if !self.9.succeeds(i9) {
            self.9.failure(i9)
        } else if !self.10.succeeds(i10) {
            self.10.failure(i10)
        } else if !self.11.succeeds(i11) {
            self.11.failure(i11)
        } else if !self.12.succeeds(i12) {
            self.12.failure(i12)
        } else if !self.13.succeeds(i13) {
            self.13.failure(i13)
        } else if !self.14.succeeds(i14) {
            self.14.failure(i14)
        } else if !self.15.succeeds(i15) {
            self.15.failure(i15)
        } else if !self.16.succeeds(i16) {
            self.16.failure(i16)
        } else if !self.17.succeeds(i17) {
            self.17.failure(i17)
        } else if !self.18.succeeds(i18) {
            self.18.failure(i18)
        } else {
            self.19.failure(i19)
        }
    }

    /// Fail-fast: when component `k` is the first to fail, the
    /// components after position `k` are never run.
    open spec fn untouched_on_failure(&self, post: Self, i: I) -> bool {
        let i1 = self.0.remaining(i);
        let i2 = self.1.remaining(i1);
        let i3 = self.2.remaining(i2);
        let i4 = self.3.remaining(i3);
        let i5 = self.4.remaining(i4);
        let i6 = self.5.remaining(i5);
        let i7 = self.6.remaining(i6);
        let i8 = self.7.remaining(i7);
        let i9 = self.8.remaining(i8);
        let i10 = self.9.remaining(i9);
        let i11 = self.10.remaining(i10);
        let i12 = self.11.remaining(i11);
        let i13 = self.12.remaining(i12);
        let i14 = self.13.remaining(i13);
        let i15 = self.14.remaining(i14);
        let i16 = self.15.remaining(i15);
        let i17 = self.16.remaining(i16);
        let i18 = self.17.remaining(i17);
        &&& !self.0.succeeds(i) ==> post.1 == self.1 && post.2 == self.2 && post.3 == self.3 && post.4 == self.4 && post.5 == self.5 && post.6 == self.6 && post.7 == self.7 && post.8 == self.8 && post.9 == self.9 && post.10 == self.10 && post.11 == self.11 && post.12 == self.12 && post.13 == self.13 && post.14 == self.14 && post.15 == self.15 && post.16 == self.16 && post.17 == self.17 && post.18 == self.18 && post.19 == self.19
        &&& self.0.succeeds(i) && !self.1.succeeds(i1) ==> post.2 == self.2 && post.3 == self.3 && post.4 == self.4 && post.5 == self.5 && post.6 == self.6 && post.7 == self.7 && post.8 == self.8 && post.9 == self.9 && post.10 == self.10 && post.11 == self.11 && post.12 == self.12 && post.13 == self.13 && post.14 == self.14 && post.15 == self.15 && post.16 == self.16 && post.17 == self.17 && post.18 == self.18 && post.19 == self.19
        &&& self.0.succeeds(i) && self.1.succeeds(i1) && !self.2.succeeds(i2) ==> post.3 == self.3 && post.4 == self.4 && post.5 == self.5 && post.6 == self.6 && post.7 == self.7 && post.8 == self.8 && post.9 == self.9 && post.10 == self.10 && post.11 == self.11 && post.12 == self.12 && post.13 == self.13 && post.14 == self.14 && post.15 == self.15 && post.16 == self.16 && post.17 == self.17 && post.18 == self.18 && post.19 == self.19
        &&& self.0.succeeds(i) && self.1.succeeds(i1) && self.2.succeeds(i2) && !self.3.succeeds(i3) ==> post.4 == self.4 && post.5 == self.5 && post.6 == self.6 && post.7 == self.7 && post.8 == self.8 && post.9 == self.9 && post.10 == self.10 && post.11 == self.11 && post.12 == self.12 && post.13 == self.13 && post.14 == self.14 && post.15 == self.15 && post.16 == self.16 && post.17 == self.17 && post.18 == self.18 && post.19 == self.19
        &&& self.0.succeeds(i) && self.1.succeeds(i1) && self.2.succeeds(i2) && self.3.succeeds(i3) && !self.4.succeeds(i4) ==> post.5 == self.5 && post.6 == self.6 && post.7 == self.7 && post.8 == self.8 && post.9 == self.9 && post.10 == self.10 && post.11 == self.11 && post.12 == self.12 && post.13 == self.13 && post.14 == self.14 && post.15 == self.15 && post.16 == self.16 && post.17 == self.17 && post.18 == self.18 && post.19 == self.19
        &&& self.0.succeeds(i) && self.1.succeeds(i1) && self.2.succeeds(i2) && self.3.succeeds(i3) && self.4.succeeds(i4) && !self.5.succeeds(i5) ==> post.6 == self.6 && post.7 == self.7 && post.8 == self.8 && post.9 == self.9 && post.10 == self.10 && post.11 == self.11 && post.12 == self.12 && post.13 == self.13 && post.14 == self.14 && post.15 == self.15 && post.16 == self.16 && post.17 == self.17 && post.18 == self.18 && post.19 == self.19
        &&& self.0.succeeds(i) && self.1.succeeds(i1) && self.2.succeeds(i2) && self.3.succeeds(i3) && self.4.succeeds(i4) && self.5.succeeds(i5) && !self.6.succeeds(i6) ==> post.7 == self.7 && post.8 == self.8 && post.9 == self.9 && post.10 == self.10 && post.11 == self.11 && post.12 == self.12 && post.13 == self.13 && post.14 == self.14 && post.15 == self.15 && post.16 == self.16 && post.17 == self.17 && post.18 == self.18 && post.19 == self.19
        &&& self.0.succeeds(i) && self.1.succeeds(i1) && self.2.succeeds(i2) && self.3.succeeds(i3) && self.4.succeeds(i4) && self.5.succeeds(i5) && self.6.succeeds(i6) && !self.7.succeeds(i7) ==> post.8 == self.8 && post.9 == self.9 && post.10 == self.10 && post.11 == self.11 && post.12 == self.12 && post.13 == self.13 && post.14 == self.14 && post.15 == self.15 && post.16 == self.16 && post.17 == self.17 && post.18 == self.18 && post.19 == self.19
        &&& self.0.succeeds(i) && self.1.succeeds(i1) && self.2.succeeds(i2) && self.3.succeeds(i3) && self.4.succeeds(i4) && self.5.succeeds(i5) && self.6.succeeds(i6) && self.7.succeeds(i7) && !self.8.succeeds(i8) ==> post.9 == self.9 && post.10 == self.10 && post.11 == self.11 && post.12 == self.12 && post.13 == self.13 && post.14 == self.14 && post.15 == self.15 && post.16 == self.16 && post.17 == self.17 && post.18 == self.18 && post.19 == self.19
        &&& self.0.succeeds(i) && self.1.succeeds(i1) && self.2.succeeds(i2) && self.3.succeeds(i3) && self.4.succeeds(i4) && self.5.succeeds(i5) && self.6.succeeds(i6) && self.7.succeeds(i7) && self.8.succeeds(i8) && !self.9.succeeds(i9) ==> post.10 == self.10 && post.11 == self.11 && post.12 == self.12 && post.13 == self.13 && post.14 == self.14 && post.15 == self.15 && post.16 == self.16 && post.17 == self.17 && post.18 == self.18 && post.19 == self.19
        &&& self.0.succeeds(i) && self.1.succeeds(i1) && self.2.succeeds(i2) && self.3.succeeds(i3) && self.4.succeeds(i4) && self.5.succeeds(i5) && self.6.succeeds(i6) && self.7.succeeds(i7) && self.8.succeeds(i8) && self.9.succeeds(i9) && !self.10.succeeds(i10) ==> post.11 == self.11 && post.12 == self.12 && post.13 == self.13 && post.14 == self.14 && post.15 == self.15 && post.16 == self.16 && post.17 == self.17 && post.18 == self.18 && post.19 == self.19
        &&& self.0.succeeds(i) && self.1.succeeds(i1) && self.2.succeeds(i2) && self.3.succeeds(i3) && self.4.succeeds(i4) && self.5.succeeds(i5) && self.6.succeeds(i6) && self.7.succeeds(i7) && self.8.succeeds(i8) && self.9.succeeds(i9) && self.10.succeeds(i10) && !self.11.succeeds(i11) ==> post.12 == self.12 && post.13 == self.13 && post.14 == self.14 && post.15 == self.15 && post.16 == self.16 && post.17 == self.17 && post.18 == self.18 && post.19 == self.19
        &&& self.0.succeeds(i) && self.1.succeeds(i1) && self.2.succeeds(i2) && self.3.succeeds(i3) && self.4.succeeds(i4) && self.5.succeeds(i5) && self.6.succeeds(i6) && self.7.succeeds(i7) && self.8.succeeds(i8) && self.9.succeeds(i9) && self.10.succeeds(i10) && self.11.succeeds(i11) && !self.12.succeeds(i12) ==> post.13 == self.13 && post.14 == self.14 && post.15 == self.15 && post.16 == self.16 && post.17 == self.17 && post.18 == self.18 && post.19 == self.19
        &&& self.0.succeeds(i) && self.1.succeeds(i1) && self.2.succeeds(i2) && self.3.succeeds(i3) && self.4.succeeds(i4) && self.5.succeeds(i5) && self.6.succeeds(i6) && self.7.succeeds(i7) && self.8.succeeds(i8) && self.9.succeeds(i9) && self.10.succeeds(i10) && self.11.succeeds(i11) && self.12.succeeds(i12) && !self.13.succeeds(i13) ==> post.14 == self.14 && post.15 == self.15 && post.16 == self.16 && post.17 == self.17 && post.18 == self.18 && post.19 == self.19
        &&& self.0.succeeds(i) && self.1.succeeds(i1) && self.2.succeeds(i2) && self.3.succeeds(i3) && self.4.succeeds(i4) && self.5.succeeds(i5) && self.6.succeeds(i6) && self.7.succeeds(i7) && self.8.succeeds(i8) && self.9.succeeds(i9) && self.10.succeeds(i10) && self.11.succeeds(i11) && self.12.succeeds(i12) && self.13.succeeds(i13) && !self.14.succeeds(i14) ==> post.15 == self.15 && post.16 == self.16 && post.17 == self.17 && post.18 == self.18 && post.19 == self.19
        &&& self.0.succeeds(i) && self.1.succeeds(i1) && self.2.succeeds(i2) && self.3.succeeds(i3) && self.4.succeeds(i4) && self.5.succeeds(i5) && self.6.succeeds(i6) && self.7.succeeds(i7) && self.8.succeeds(i8) && self.9.succeeds(i9) && self.10.succeeds(i10) && self.11.succeeds(i11) && self.12.succeeds(i12) && self.13.succeeds(i13) && self.14.succeeds(i14) && !self.15.succeeds(i15) ==> post.16 == self.16 && post.17 == self.17 && post.18 == self.18 && post.19 == self.19
        &&& self.0.succeeds(i) && self.1.succeeds(i1) && self.2.succeeds(i2) && self.3.succeeds(i3) && self.4.succeeds(i4) && self.5.succeeds(i5) && self.6.succeeds(i6) && self.7.succeeds(i7) && self.8.succeeds(i8) && self.9.succeeds(i9) && self.10.succeeds(i10) && self.11.succeeds(i11) && self.12.succeeds(i12) && self.13.succeeds(i13) && self.14.succeeds(i14) && self.15.succeeds(i15) && !self.16.succeeds(i16) ==> post.17 == self.17 && post.18 == self.18 && post.19 == self.19
        &&& self.0.succeeds(i) && self.1.succeeds(i1) && self.2.succeeds(i2) && self.3.succeeds(i3) && self.4.succeeds(i4) && self.5.succeeds(i5) && self.6.succeeds(i6) && self.7.succeeds(i7) && self.8.succeeds(i8) && self.9.succeeds(i9) && self.10.succeeds(i10) && self.11.succeeds(i11) && self.12.succeeds(i12) && self.13.succeeds(i13) && self.14.succeeds(i14) && self.15.succeeds(i15) && self.16.succeeds(i16) && !self.17.succeeds(i17) ==> post.18 == self.18 && post.19 == self.19
        &&& self.0.succeeds(i) && self.1.succeeds(i1) && self.2.succeeds(i2) && self.3.succeeds(i3) && self.4.succeeds(i4) && self.5.succeeds(i5) && self.6.succeeds(i6) && self.7.succeeds(i7) && self.8.succeeds(i8) && self.9.succeeds(i9) && self.10.succeeds(i10) && self.11.succeeds(i11) && self.12.succeeds(i12) && self.13.succeeds(i13) && self.14.succeeds(i14) && self.15.succeeds(i15) && self.16.succeeds(i16) && self.17.succeeds(i17) && !self.18.succeeds(i18) ==> post.19 == self.19
    }

    proof fn remaining_no_longer(&self, i: I) {
        self.0.remaining_no_longer(i);
        let i1 = self.0.remaining(i);
        self.1.remaining_no_longer(i1);
        let i2 = self.1.remaining(i1);
        self.2.remaining_no_longer(i2);
        let i3 = self.2.remaining(i2);
        self.3.remaining_no_longer(i3);
        let i4 = self.3.remaining(i3);
        self.4.remaining_no_longer(i4);
        let i5 = self.4.remaining(i4);
        self.5.remaining_no_longer(i5);
        let i6 = self.5.remaining(i5);
        self.6.remaining_no_longer(i6);
        let i7 = self.6.remaining(i6);
        self.7.remaining_no_longer(i7);
        let i8 = self.7.remaining(i7);
        self.8.remaining_no_longer(i8);
        let i9 = self.8.remaining(i8);
        self.9.remaining_no_longer(i9);
        let i10 = self.9.remaining(i9);
        self.10.remaining_no_longer(i10);
        let i11 = self.10.remaining(i10);
        self.11.remaining_no_longer(i11);
        let i12 = self.11.remaining(i11);
        self.12.remaining_no_longer(i12);
        let i13 = self.12.remaining(i12);
        self.13.remaining_no_longer(i13);
        let i14 = self.13.remaining(i13);
        self.14.remaining_no_longer(i14);
        let i15 = self.14.remaining(i14);
        self.15.remaining_no_longer(i15);
        let i16 = self.15.remaining(i15);
        self.16.remaining_no_longer(i16);
        let i17 = self.16.remaining(i16);
        self.17.remaining_no_longer(i17);
        let i18 = self.17.remaining(i17);
        self.18.remaining_no_longer(i18);
        let i19 = self.18.remaining(i18);
        self.19.remaining_no_longer(i19);
    }

    fn parse(&mut self, i: I) -> (r: IResult<I, (FnA::Output, FnB::Output, FnC::Output, FnD::Output, FnE::Output, FnF::Output, FnG::Output, FnH::Output, FnI::Output, FnJ::Output, FnK::Output, FnL::Output, FnM::Output, FnN::Output, FnO::Output, FnP::Output, FnQ::Output, FnR::Output, FnS::Output, FnT::Output), E>) {
        match self.0.parse(i) {
            Err(e) => Err(e),
            Ok((i1, o0)) => {
                match self.1.parse(i1) {
                    Err(e) => Err(e),
                    Ok((i2, o1)) => {
                        match self.2.parse(i2) {
                            Err(e) => Err(e),
                            Ok((i3, o2)) => {
                                match self.3.parse(i3) {
                                    Err(e) => Err(e),
                                    Ok((i4, o3)) => {
                                        match self.4.parse(i4) {
                                            Err(e) => Err(e),
                                            Ok((i5, o4)) => {
                                                match self.5.parse(i5) {
                                                    Err(e) => Err(e),
                                                    Ok((i6, o5)) => {
                                                        match self.6.parse(i6) {
                                                            Err(e) => Err(e),
                                                            Ok((i7, o6)) => {
                                                                match self.7.parse(i7) {
                                                                    Err(e) => Err(e),
                                                                    Ok((i8, o7)) => {
                                                                        match self.8.parse(i8) {
                                                                            Err(e) => Err(e),
                                                                            Ok((i9, o8)) => {
                                                                                match self.9.parse(i9) {
                                                                                    Err(e) => Err(e),
                                                                                    Ok((i10, o9)) => {
                                                                                        match self.10.parse(i10) {
                                                                                            Err(e) => Err(e),
                                                                                            Ok((i11, o10)) => {
                                                                                                match self.11.parse(i11) {
                                                                                                    Err(e) => Err(e),
                                                                                                    Ok((i12, o11)) => {
                                                                                                        match self.12.parse(i12) {
                                                                                                            Err(e) => Err(e),
                                                                                                            Ok((i13, o12)) => {
                                                                                                                match self.13.parse(i13) {
                                                                                                                    Err(e) => Err(e),
                                                                                                                    Ok((i14, o13)) => {
                                                                                                                        match self.14.parse(i14) {
                                                                                                                            Err(e) => Err(e),
                                                                                                                            Ok((i15, o14)) => {
                                                                                                                                match self.15.parse(i15) {
                                                                                                                                    Err(e) => Err(e),
                                                                                                                                    Ok((i16, o15)) => {
                                                                                                                                        match self.16.parse(i16) {
                                                                                                                                            Err(e) => Err(e),
                                                                                                                                            Ok((i17, o16)) => {
                                                                                                                                                match self.17.parse(i17) {
                                                                                                                                                    Err(e) => Err(e),
                                                                                                                                                    Ok((i18, o17)) => {
                                                                                                                                                        match self.18.parse(i18) {
                                                                                                                                                            Err(e) => Err(e),
                                                                                                                                                            Ok((i19, o18)) => {
                                                                                                                                                                match self.19.parse(i19) {
                                                                                                                                                                    Err(e) => Err(e),
                                                                                                                                                                    Ok((i20, o19)) => Ok((i20, (o0, o1, o2, o3, o4, o5, o6, o7, o8, o9, o10, o11, o12, o13, o14, o15, o16, o17, o18, o19))),
                                                                                                                                                                }
                                                                                                                                                            },
                                                                                                                                                        }
                                                                                                                                                    },
                                                                                                                                                }
                                                                                                                                            },
                                                                                                                                        }
                                                                                                                                    },
                                                                                                                                }
                                                                                                                            },
                                                                                                                        }
                                                                                                                    },
                                                                                                                }
                                                                                                            },
                                                                                                        }
                                                                                                    },
                                                                                                }
                                                                                            },
                                                                                        }
                                                                                    },
                                                                                }
                                                                            },
                                                                        }
                                                                    },
                                                                }
                                                            },
                                                        }
                                                    },
                                                }
                                            },
                                        }
                                    },
                                }
                            },
                        }
                    },
                }
            },
        }
    }
}

/// Runs the 21 parsers in index order, each on what its predecessor
/// left, and yields their outputs as a 21-tuple.
impl<
    I: InputLength,
    E,
    FnA: Parser<I, E>,
    FnB: Parser<I, E>,
    FnC: Parser<I, E>,
    FnD: Parser<I, E>,
    FnE: Parser<I, E>,
    FnF: Parser<I, E>,
    FnG: Parser<I, E>,
    FnH: Parser<I, E>,
    FnI: Parser<I, E>,
    FnJ: Parser<I, E>,
    FnK: Parser<I, E>,
    FnL: Parser<I, E>,
    FnM: Parser<I, E>,
    FnN: Parser<I, E>,
    FnO: Parser<I, E>,
    FnP: Parser<I, E>,
    FnQ: Parser<I, E>,
    FnR: Parser<I, E>,
    FnS: Parser<I, E>,
    FnT: Parser<I, E>,
    FnU: Parser<I, E>,
> Tuple<I, E> for (FnA, FnB, FnC, FnD, FnE, FnF, FnG, FnH, FnI, FnJ, FnK, FnL, FnM, FnN, FnO, FnP, FnQ, FnR, FnS, FnT, FnU) {
    type Output = (FnA::Output, FnB::Output, FnC::Output, FnD::Output, FnE::Output, FnF::Output, FnG::Output, FnH::Output, FnI::Output, FnJ::Output, FnK::Output, FnL::Output, FnM::Output, FnN::Output, FnO::Output, FnP::Output, FnQ::Output, FnR::Output, FnS::Output, FnT::Output, FnU::Output);

    /// Every component succeeds, each on what its predecessor left.
    open spec fn succeeds(&self, i: I) -> bool {
        let i1 = self.0.remaining(i);
        let i2 = self.1.remaining(i1);
        let i3 = self.2.remaining(i2);
        let i4 = self.3.remaining(i3);
        let i5 = self.4.remaining(i4);
        let i6 = self.5.remaining(i5);
        let i7 = self.6.remaining(i6);
        let i8 = self.7.remaining(i7);
        let i9 = self.8.remaining(i8);
        let i10 = self.9.remaining(i9);
        let i11 = self.10.remaining(i10);
        let i12 = self.11.remaining(i11);
        let i13 = self.12.remaining(i12);
        let i14 = self.13.remaining(i13);
        let i15 = self.14.remaining(i14);
        let i16 = self.15.remaining(i15);
        let i17 = self.16.remaining(i16);
        let i18 = self.17.remaining(i17);
        let i19 = self.18.remaining(i18);
        let i20 = self.19.remaining(i19);
        &&& self.0.succeeds(i)
        &&& self.1.succeeds(i1)
        &&& self.2.succeeds(i2)
        &&& self.3.succeeds(i3)
        &&& self.4.succeeds(i4)
        &&& self.5.succeeds(i5)
        &&& self.6.succeeds(i6)
        &&& self.7.succeeds(i7)
        &&& self.8.succeeds(i8)
        &&& self.9.succeeds(i9)
        &&& self.10.succeeds(i10)
        &&& self.11.succeeds(i11)
        &&& self.12.succeeds(i12)
        &&& self.13.succeeds(i13)
        &&& self.14.succeeds(i14)
        &&& self.15.succeeds(i15)
        &&& self.16.succeeds(i16)
        &&& self.17.succeeds(i17)
        &&& self.18.succeeds(i18)
        &&& self.19.succeeds(i19)
        &&& self.20.succeeds(i20)
    }

    /// What the last component leaves.
    open spec fn remaining(&self, i: I) -> I {
        let i1 = self.0.remaining(i);
        let i2 = self.1.remaining(i1);
        let i3 = self.2.remaining(i2);
        let i4 = self.3.remaining(i3);
        let i5 = self.4.remaining(i4);
        let i6 = self.5.remaining(i5);
        let i7 = self.6.remaining(i6);
        let i8 = self.7.remaining(i7);
        let i9 = self.8.remaining(i8);
        let i10 = self.9.remaining(i9);
        let i11 = self.10.remaining(i10);
        let i12 = self.11.remaining(i11);
        let i13 = self.12.remaining(i12);
        let i14 = self.13.remaining(i13);
        let i15 = self.14.remaining(i14);
        let i16 = self.15.remaining(i15);
        let i17 = self.16.remaining(i16);
        let i18 = self.17.remaining(i17);
        let i19 = self.18.remaining(i18);
        let i20 = self.19.remaining(i19);
        self.20.remaining(i20)
    }

    /// Position `k` holds an output of parser `k`, run on the cursor
    /// left by parser `k - 1`.
    open spec fn produces(&self, i: I, o: (FnA::Output, FnB::Output, FnC::Output, FnD::Output, FnE::Output, FnF::Output, FnG::Output, FnH::Output, FnI::Output, FnJ::Output, FnK::Output, FnL::Output, FnM::Output, FnN::Output, FnO::Output, FnP::Output, FnQ::Output, FnR::Output, FnS::Output, FnT::Output, FnU::Output)) -> bool {
        let i1 = self.0.remaining(i);
        let i2 = self.1.remaining(i1);
        let i3 = self.2.remaining(i2);
        let i4 = self.3.remaining(i3);
        let i5 = self.4.remaining(i4);
        let i6 = self.5.remaining(i5);
        let i7 = self.6.remaining(i6);
        let i8 = self.7.remaining(i7);
        let i9 = self.8.remaining(i8);
        let i10 = self.9.remaining(i9);
        let i11 = self.10.remaining(i10);
        let i12 = self.11.remaining(i11);
        let i13 = self.12.remaining(i12);
        let i14 = self.13.remaining(i13);
        let i15 = self.14.remaining(i14);
        let i16 = self.15.remaining(i15);
        let i17 = self.16.remaining(i16);
        let i18 = self.17.remaining(i17);
        let i19 = self.18.remaining(i18);
        let i20 = self.19.remaining(i19);
        &&& self.0.produces(i, o.0)
        &&& self.1.produces(i1, o.1)
        &&& self.2.produces(i2, o.2)
        &&& self.3.produces(i3, o.3)
        &&& self.4.produces(i4, o.4)
        &&& self.5.produces(i5, o.5)
        &&& self.6.produces(i6, o.6)
        &&& self.7.produces(i7, o.7)
        &&& self.8.produces(i8, o.8)
        &&& self.9.produces(i9, o.9)
        &&& self.10.produces(i10, o.10)
        &&& self.11.produces(i11, o.11)
        &&& self.12.produces(i12, o.12)
        &&& self.13.produces(i13, o.13)
        &&& self.14.produces(i14, o.14)
        &&& self.15.produces(i15, o.15)
        &&& self.16.produces(i16, o.16)
        &&& self.17.produces(i17, o.17)
        &&& self.18.produces(i18, o.18)
        &&& self.19.produces(i19, o.19)
        &&& self.20.produces(i20, o.20)
    }

    /// The first failing component's outcome, unchanged.
    open spec fn failure(&self, i: I) -> ParseErr<E> {
        let i1 = self.0.remaining(i);
        let i2 = self.1.remaining(i1);
        let i3 = self.2.remaining(i2);
        let i4 = self.3.remaining(i3);
        let i5 = self.4.remaining(i4);
        let i6 = self.5.remaining(i5);
        let i7 = self.6.remaining(i6);
        let i8 = self.7.remaining(i7);
        let i9 = self.8.remaining(i8);
        let i10 = self.9.remaining(i9);
        let i11 = self.10.remaining(i10);
        let i12 = self.11.remaining(i11);
        let i13 = self.12.remaining(i12);
        let i14 = self.13.remaining(i13);
        let i15 = self.14.remaining(i14);
        let i16 = self.15.remaining(i15);
        let i17 = self.16.remaining(i16);
        let i18 = self.17.remaining(i17);
        let i19 = self.18.remaining(i18);
        let i20 = self.19.remaining(i19);
        if !self.0.succeeds(i) {
            self.0.failure(i)
        } else if !self.1.succeeds(i1) {
            self.1.failure(i1)
        } else if !self.2.succeeds(i2) {
            self.2.failure(i2)
        } else if !self.3.succeeds(i3) {
            self.3.failure(i3)
        } else if !self.4.succeeds(i4) {
            self.4.failure(i4)
        } else if !self.5.succeeds(i5) {
            self.5.failure(i5)
        } else if !self.6.succeeds(i6) {
            self.6.failure(i6)
        } else if !self.7.succeeds(i7) {
            self.7.failure(i7)
        } else if !self.8.succeeds(i8) {
            self.8.failure(i8)
        } else if !self.9.succeeds(i9) {
            self.9.failure(i9)
        } else if !self.10.succeeds(i10) {
            self.10.failure(i10)
        } else if !self.11.succeeds(i11) {
            self.11.failure(i11)
        } else if !self.12.succeeds(i12) {
            self.12.failure(i12)
        } else if !self.13.succeeds(i13) {
            self.13.failure(i13)
        } else if !self.14.succeeds(i14) {
            self.14.failure(i14)
        } else if !self.15.succeeds(i15) {
            self.15.failure(i15)
        } else if !self.16.succeeds(i16) {
            self.16.failure(i16)
        } else if !self.17.succeeds(i17) {
            self.17.failure(i17)
        } else if !self.18.succeeds(i18) {
            self.18.failure(i18)
        } else if !self.19.succeeds(i19) {
            self.19.failure(i19)
        } else {
            self.20.failure(i20)
        }
    }

    /// Fail-fast: when component `k` is the first to fail, the
    /// components after position `k` are never run.
    open spec fn untouched_on_failure(&self, post: Self, i: I) -> bool {
        let i1 = self.0.remaining(i);
        let i2 = self.1.remaining(i1);
        let i3 = self.2.remaining(i2);
        let i4 = self.3.remaining(i3);
        let i5 = self.4.remaining(i4);
        let i6 = self.5.remaining(i5);
        let i7 = self.6.remaining(i6);
        let i8 = self.7.remaining(i7);
        let i9 = self.8.remaining(i8);
        let i10 = self.9.remaining(i9);
        let i11 = self.10.remaining(i10);
        let i12 = self.11.remaining(i11);
        let i13 = self.12.remaining(i12);
        let i14 = self.13.remaining(i13);
        let i15 = self.14.remaining(i14);
        let i16 = self.15.remaining(i15);
        let i17 = self.16.remaining(i16);
        let i18 = self.17.remaining(i17);
        let i19 = self.18.remaining(i18);
        &&& !self.0.succeeds(i) ==> post.1 == self.1 && post.2 == self.2 && post.3 == self.3 && post.4 == self.4 && post.5 == self.5 && post.6 == self.6 && post.7 == self.7 && post.8 == self.8 && post.9 == self.9 && post.10 == self.10 && post.11 == self.11 && post.12 == self.12 && post.13 == self.13 && post.14 == self.14 && post.15 == self.15 && post.16 == self.16 && post.17 == self.17 && post.18 == self.18 && post.19 == self.19 && post.20 == self.20
        &&& self.0.succeeds(i) && !self.1.succeeds(i1) ==> post.2 == self.2 && post.3 == self.3 && post.4 == self.4 && post.5 == self.5 && post.6 == self.6 && post.7 == self.7 && post.8 == self.8 && post.9 == self.9 && post.10 == self.10 && post.11 == self.11 && post.12 == self.12 && post.13 == self.13 && post.14 == self.14 && post.15 == self.15 && post.16 == self.16 && post.17 == self.17 && post.18 == self.18 && post.19 == self.19 && post.20 == self.20
        &&& self.0.succeeds(i) && self.1.succeeds(i1) && !self.2.succeeds(i2) ==> post.3 == self.3 && post.4 == self.4 && post.5 == self.5 && post.6 == self.6 && post.7 == self.7 && post.8 == self.8 && post.9 == self.9 && post.10 == self.10 && post.11 == self.11 && post.12 == self.12 && post.13 == self.13 && post.14 == self.14 && post.15 == self.15 && post.16 == self.16 && post.17 == self.17 && post.18 == self.18 && post.19 == self.19 && post.20 == self.20
        &&& self.0.succeeds(i) && self.1.succeeds(i1) && self.2.succeeds(i2) && !self.3.succeeds(i3) ==> post.4 == self.4 && post.5 == self.5 && post.6 == self.6 && post.7 == self.7 && post.8 == self.8 && post.9 == self.9 && post.10 == self.10 && post.11 == self.11 && post.12 == self.12 && post.13 == self.13 && post.14 == self.14 && post.15 == self.15 && post.16 == self.16 && post.17 == self.17 && post.18 == self.18 && post.19 == self.19 && post.20 == self.20
        &&& self.0.succeeds(i) && self.1.succeeds(i1) && self.2.succeeds(i2) && self.3.succeeds(i3) && !self.4.succeeds(i4) ==> post.5 == self.5 && post.6 == self.6 && post.7 == self.7 && post.8 == self.8 && post.9 == self.9 && post.10 == self.10 && post.11 == self.11 && post.12 == self.12 && post.13 == self.13 && post.14 == self.14 && post.15 == self.15 && post.16 == self.16 && post.17 == self.17 && post.18 == self.18 && post.19 == self.19 && post.20 == self.20
        &&& self.0.succeeds(i) && self.1.succeeds(i1) && self.2.succeeds(i2) && self.3.succeeds(i3) && self.4.succeeds(i4) && !self.5.succeeds(i5) ==> post.6 == self.6 && post.7 == self.7 && post.8 == self.8 && post.9 == self.9 && post.10 == self.10 && post.11 == self.11 && post.12 == self.12 && post.13 == self.13 && post.14 == self.14 && post.15 == self.15 && post.16 == self.16 && post.17 == self.17 && post.18 == self.18 && post.19 == self.19 && post.20 == self.20
        &&& self.0.succeeds(i) && self.1.succeeds(i1) && self.2.succeeds(i2) && self.3.succeeds(i3) && self.4.succeeds(i4) && self.5.succeeds(i5) && !self.6.succeeds(i6) ==> post.7 == self.7 && post.8 == self.8 && post.9 == self.9 && post.10 == self.10 && post.11 == self.11 && post.12 == self.12 && post.13 == self.13 && post.14 == self.14 && post.15 == self.15 && post.16 == self.16 && post.17 == self.17 && post.18 == self.18 && post.19 == self.19 && post.20 == self.20
        &&& self.0.succeeds(i) && self.1.succeeds(i1) && self.2.succeeds(i2) && self.3.succeeds(i3) && self.4.succeeds(i4) && self.5.succeeds(i5) && self.6.succeeds(i6) && !self.7.succeeds(i7) ==> post.8 == self.8 && post.9 == self.9 && post.10 == self.10 && post.11 == self.11 && post.12 == self.12 && post.13 == self.13 && post.14 == self.14 && post.15 == self.15 && post.16 == self.16 && post.17 == self.17 && post.18 == self.18 && post.19 == self.19 && post.20 == self.20
        &&& self.0.succeeds(i) && self.1.succeeds(i1) && self.2.succeeds(i2) && self.3.succeeds(i3) && self.4.succeeds(i4) && self.5.succeeds(i5) && self.6.succeeds(i6) && self.7.succeeds(i7) && !self.8.succeeds(i8) ==> post.9 == self.9 && post.10 == self.10 && post.11 == self.11 && post.12 == self.12 && post.13 == self.13 && post.14 == self.14 && post.15 == self.15 && post.16 == self.16 && post.17 == self.17 && post.18 == self.18 && post.19 == self.19 && post.20 == self.20
        &&& self.0.succeeds(i) && self.1.succeeds(i1) && self.2.succeeds(i2) && self.3.succeeds(i3) && self.4.succeeds(i4) && self.5.succeeds(i5) && self.6.succeeds(i6) && self.7.succeeds(i7) && self.8.succeeds(i8) && !self.9.succeeds(i9) ==> post.10 == self.10 && post.11 == self.11 && post.12 == self.12 && post.13 == self.13 && post.14 == self.14 && post.15 == self.15 && post.16 == self.16 && post.17 == self.17 && post.18 == self.18 && post.19 == self.19 && post.20 == self.20
        &&& self.0.succeeds(i) && self.1.succeeds(i1) && self.2.succeeds(i2) && self.3.succeeds(i3) && self.4.succeeds(i4) && self.5.succeeds(i5) && self.6.succeeds(i6) && self.7.succeeds(i7) && self.8.succeeds(i8) && self.9.succeeds(i9) && !self.10.succeeds(i10) ==> post.11 == self.11 && post.12 == self.12 && post.13 == self.13 && post.14 == self.14 && post.15 == self.15 && post.16 == self.16 && post.17 == self.17 && post.18 == self.18 && post.19 == self.19 && post.20 == self.20
        &&& self.0.succeeds(i) && self.1.succeeds(i1) && self.2.succeeds(i2) && self.3.succeeds(i3) && self.4.succeeds(i4) && self.5.succeeds(i5) && self.6.succeeds(i6) && self.7.succeeds(i7) && self.8.succeeds(i8) && self.9.succeeds(i9) && self.10.succeeds(i10) && !self.11.succeeds(i11) ==> post.12 == self.12 && post.13 == self.13 && post.14 == self.14 && post.15 == self.15 && post.16 == self.16 && post.17 == self.17 && post.18 == self.18 && post.19 == self.19 && post.20 == self.20
        &&& self.0.succeeds(i) && self.1.succeeds(i1) && self.2.succeeds(i2) && self.3.succeeds(i3) && self.4.succeeds(i4) && self.5.succeeds(i5) && self.6.succeeds(i6) && self.7.succeeds(i7) && self.8.succeeds(i8) && self.9.succeeds(i9) && self.10.succeeds(i10) && self.11.succeeds(i11) && !self.12.succeeds(i12) ==> post.13 == self.13 && post.14 == self.14 && post.15 == self.15 && post.16 == self.16 && post.17 == self.17 && post.18 == self.18 && post.19 == self.19 && post.20 == self.20
        &&& self.0.succeeds(i) && self.1.succeeds(i1) && self.2.succeeds(i2) && self.3.succeeds(i3) && self.4.succeeds(i4) && self.5.succeeds(i5) && self.6.succeeds(i6) && self.7.succeeds(i7) && self.8.succeeds(i8) && self.9.succeeds(i9) && self.10.succeeds(i10) && self.11.succeeds(i11) && self.12.succeeds(i12) && !self.13.succeeds(i13) ==> post.14 == self.14 && post.15 == self.15 && post.16 == self.16 && post.17 == self.17 && post.18 == self.18 && post.19 == self.19 && post.20 == self.20
        &&& self.0.succeeds(i) && self.1.succeeds(i1) && self.2.succeeds(i2) && self.3.succeeds(i3) && self.4.succeeds(i4) && self.5.succeeds(i5) && self.6.succeeds(i6) && self.7.succeeds(i7) && self.8.succeeds(i8) && self.9.succeeds(i9) && self.10.succeeds(i10) && self.11.succeeds(i11) && self.12.succeeds(i12) && self.13.succeeds(i13) && !self.14.succeeds(i14) ==> post.15 == self.15 && post.16 == self.16 && post.17 == self.17 && post.18 == self.18 && post.19 == self.19 && post.20 == self.20
        &&& self.0.succeeds(i) && self.1.succeeds(i1) && self.2.succeeds(i2) && self.3.succeeds(i3) && self.4.succeeds(i4) && self.5.succeeds(i5) && self.6.succeeds(i6) && self.7.succeeds(i7) && self.8.succeeds(i8) && self.9.succeeds(i9) && self.10.succeeds(i10) && self.11.succeeds(i11) && self.12.succeeds(i12) && self.13.succeeds(i13) && self.14.succeeds(i14) && !self.15.succeeds(i15) ==> post.16 == self.16 && post.17 == self.17 && post.18 == self.18 && post.19 == self.19 && post.20 == self.20
        &&& self.0.succeeds(i) && self.1.succeeds(i1) && self.2.succeeds(i2) && self.3.succeeds(i3) && self.4.succeeds(i4) && self.5.succeeds(i5) && self.6.succeeds(i6) && self.7.succeeds(i7) && self.8.succeeds(i8) && self.9.succeeds(i9) && self.10.succeeds(i10) && self.11.succeeds(i11) && self.12.succeeds(i12) && self.13.succeeds(i13) && self.14.succeeds(i14) && self.15.succeeds(i15) && !self.16.succeeds(i16) ==> post.17 == self.17 && post.18 == self.18 && post.19 == self.19 && post.20 == self.20
        &&& self.0.succeeds(i) && self.1.succeeds(i1) && self.2.succeeds(i2) && self.3.succeeds(i3) && self.4.succeeds(i4) && self.5.succeeds(i5) && self.6.succeeds(i6) && self.7.succeeds(i7) && self.8.succeeds(i8) && self.9.succeeds(i9) && self.10.succeeds(i10) && self.11.succeeds(i11) && self.12.succeeds(i12) && self.13.succeeds(i13) && self.14.succeeds(i14) && self.15.succeeds(i15) && self.16.succeeds(i16) && !self.17.succeeds(i17) ==> post.18 == self.18 && post.19 == self.19 && post.20 == self.20
        &&& self.0.succeeds(i) && self.1.succeeds(i1) && self.2.succeeds(i2) && self.3.succeeds(i3) && self.4.succeeds(i4) && self.5.succeeds(i5) && self.6.succeeds(i6) && self.7.succeeds(i7) && self.8.succeeds(i8) && self.9.succeeds(i9) && self.10.succeeds(i10) && self.11.succeeds(i11) && self.12.succeeds(i12) && self.13.succeeds(i13) && self.14.succeeds(i14) && self.15.succeeds(i15) && self.16.succeeds(i16) && self.17.succeeds(i17) && !self.18.succeeds(i18) ==> post.19 == self.19 && post.20 == self.20
        &&& self.0.succeeds(i) && self.1.succeeds(i1) && self.2.succeeds(i2) && self.3.succeeds(i3) && self.4.succeeds(i4) && self.5.succeeds(i5) && self.6.succeeds(i6) && self.7.succeeds(i7) && self.8.succeeds(i8) && self.9.succeeds(i9) && self.10.succeeds(i10) && self.11.succeeds(i11) && self.12.succeeds(i12) && self.13.succeeds(i13) && self.14.succeeds(i14) && self.15.succeeds(i15) && self.16.succeeds(i16) && self.17.succeeds(i17) && self.18.succeeds(i18) && !self.19.succeeds(i19) ==> post.20 == self.20
    }

    proof fn remaining_no_longer(&self, i: I) {
        self.0.remaining_no_longer(i);
        let i1 = self.0.remaining(i);
        self.1.remaining_no_longer(i1);
        let i2 = self.1.remaining(i1);
        self.2.remaining_no_longer(i2);
        let i3 = self.2.remaining(i2);
        self.3.remaining_no_longer(i3);
        let i4 = self.3.remaining(i3);
        self.4.remaining_no_longer(i4);
        let i5 = self.4.remaining(i4);
        self.5.remaining_no_longer(i5);
        let i6 = self.5.remaining(i5);
        self.6.remaining_no_longer(i6);
        let i7 = self.6.remaining(i6);
        self.7.remaining_no_longer(i7);
        let i8 = self.7.remaining(i7);
        self.8.remaining_no_longer(i8);
        let i9 = self.8.remaining(i8);
        self.9.remaining_no_longer(i9);
        let i10 = self.9.remaining(i9);
        self.10.remaining_no_longer(i10);
        let i11 = self.10.remaining(i10);
        self.11.remaining_no_longer(i11);
        let i12 = self.11.remaining(i11);
        self.12.remaining_no_longer(i12);
        let i13 = self.12.remaining(i12);
        self.13.remaining_no_longer(i13);
        let i14 = self.13.remaining(i13);
        self.14.remaining_no_longer(i14);
        let i15 = self.14.remaining(i14);
        self.15.remaining_no_longer(i15);
        let i16 = self.15.remaining(i15);
        self.16.remaining_no_longer(i16);
        let i17 = self.16.remaining(i16);
        self.17.remaining_no_longer(i17);
        let i18 = self.17.remaining(i17);
        self.18.remaining_no_longer(i18);
        let i19 = self.18.remaining(i18);
        self.19.remaining_no_longer(i19);
        let i20 = self.19.remaining(i19);
        self.20.remaining_no_longer(i20);
    }

    fn parse(&mut self, i: I) -> (r: IResult<I, (FnA::Output, FnB::Output, FnC::Output, FnD::Output, FnE::Output, FnF::Output, FnG::Output, FnH::Output, FnI::Output, FnJ::Output, FnK::Output, FnL::Output, FnM::Output, FnN::Output, FnO::Output, FnP::Output, FnQ::Output, FnR::Output, FnS::Output, FnT::Output, FnU::Output), E>) {
        match self.0.parse(i) {
            Err(e) => Err(e),
            Ok((i1, o0)) => {
                match self.1.parse(i1) {
                    Err(e) => Err(e),
                    Ok((i2, o1)) => {
                        match self.2.parse(i2) {
                            Err(e) => Err(e),
                            Ok((i3, o2)) => {
                                match self.3.parse(i3) {
                                    Err(e) => Err(e),
                                    Ok((i4, o3)) => {
                                        match self.4.parse(i4) {
                                            Err(e) => Err(e),
                                            Ok((i5, o4)) => {
                                                match self.5.parse(i5) {
                                                    Err(e) => Err(e),
                                                    Ok((i6, o5)) => {
                                                        match self.6.parse(i6) {
                                                            Err(e) => Err(e),
                                                            Ok((i7, o6)) => {
                                                                match self.7.parse(i7) {
                                                                    Err(e) => Err(e),
                                                                    Ok((i8, o7)) => {
                                                                        match self.8.parse(i8) {
                                                                            Err(e) => Err(e),
                                                                            Ok((i9, o8)) => {
                                                                                match self.9.parse(i9) {
                                                                                    Err(e) => Err(e),
                                                                                    Ok((i10, o9)) => {
                                                                                        match self.10.parse(i10) {
                                                                                            Err(e) => Err(e),
                                                                                            Ok((i11, o10)) => {
                                                                                                match self.11.parse(i11) {
                                                                                                    Err(e) => Err(e),
                                                                                                    Ok((i12, o11)) => {
                                                                                                        match self.12.parse(i12) {
                                                                                                            Err(e) => Err(e),
                                                                                                            Ok((i13, o12)) => {
                                                                                                                match self.13.parse(i13) {
                                                                                                                    Err(e) => Err(e),
                                                                                                                    Ok((i14, o13)) => {
                                                                                                                        match self.14.parse(i14) {
                                                                                                                            Err(e) => Err(e),
                                                                                                                            Ok((i15, o14)) => {
                                                                                                                                match self.15.parse(i15) {
                                                                                                                                    Err(e) => Err(e),
                                                                                                                                    Ok((i16, o15)) => {
                                                                                                                                        match self.16.parse(i16) {
                                                                                                                                            Err(e) => Err(e),
                                                                                                                                            Ok((i17, o16)) => {
                                                                                                                                                match self.17.parse(i17) {
                                                                                                                                                    Err(e) => Err(e),
                                                                                                                                                    Ok((i18, o17)) => {
                                                                                                                                                        match self.18.parse(i18) {
                                                                                                                                                            Err(e) => Err(e),
                                                                                                                                                            Ok((i19, o18)) => {
                                                                                                                                                                match self.19.parse(i19) {
                                                                                                                                                                    Err(e) => Err(e),
                                                                                                                                                                    Ok((i20, o19)) => {
                                                                                                                                                                        match self.20.parse(i20) {
                                                                                                                                                                            Err(e) => Err(e),
                                                                                                                                                                            Ok((i21, o20)) => Ok((i21, (o0, o1, o2, o3, o4, o5, o6, o7, o8, o9, o10, o11, o12, o13, o14, o15, o16, o17, o18, o19, o20))),
                                                                                                                                                                        }
                                                                                                                                                                    },
                                                                                                                                                                }
                                                                                                                                                            },
                                                                                                                                                        }
                                                                                                                                                    },
                                                                                                                                                }
                                                                                                                                            },
                                                                                                                                        }
                                                                                                                                    },
                                                                                                                                }
                                                                                                                            },
                                                                                                                        }
                                                                                                                    },
                                                                                                                }
                                                                                                            },
                                                                                                        }
                                                                                                    },
                                                                                                }
                                                                                            },
                                                                                        }
                                                                                    },
                                                                                }
                                                                            },
                                                                        }
                                                                    },
                                                                }
                                                            },
                                                        }
                                                    },
                                                }
                                            },
                                        }
                                    },
                                }
                            },
                        }
                    },
                }
            },
        }
    }
}

/// The parser the [`tuple`] combinator builds: it runs the wrapped tuple
/// of parsers in index order and carries the same contract, so it can stand
/// wherever a single [`Parser`] is expected.
pub struct Tupled<L> {
    /// The component parsers, one position each.
    pub parsers: L,
}

/// Applies a tuple of parsers one by one and returns their results as a
/// tuple. There is a maximum of 21 parsers; nest [`pair`] compositions to
/// go further.
///
/// [`pair`]: crate::sequence::pair
pub fn tuple<I: InputLength, E, L: Tuple<I, E>>(l: L) -> (p: Tupled<L>)
    ensures
        p == (Tupled { parsers: l }),
{
    Tupled { parsers: l }
}

impl<I: InputLength, E, L: Tuple<I, E>> Parser<I, E> for Tupled<L> {
    /// The product of the component outputs, in position order.
    type Output = L::Output;

    /// Every component succeeds, each on what its predecessor left.
    open spec fn succeeds(&self, i: I) -> bool {
        self.parsers.succeeds(i)
    }

    /// What the last component leaves.
    open spec fn remaining(&self, i: I) -> I {
        self.parsers.remaining(i)
    }

    /// The product of the component outputs, in position order.
    open spec fn produces(&self, i: I, o: L::Output) -> bool {
        self.parsers.produces(i, o)
    }

    /// The first failing component's outcome, unchanged.
    open spec fn failure(&self, i: I) -> ParseErr<E> {
        self.parsers.failure(i)
    }

    /// Fail-fast, as the wrapped tuple promises it.
    open spec fn untouched_on_failure(&self, post: Self, i: I) -> bool {
        self.parsers.untouched_on_failure(post.parsers, i)
    }

    proof fn remaining_no_longer(&self, i: I) {
        self.parsers.remaining_no_longer(i);
    }

    fn parse(&mut self, i: I) -> (r: IResult<I, L::Output, E>) {
        self.parsers.parse(i)
    }
}

/// Consumption for the 1-parser tuple: it consumes exactly what its
/// only component consumes, and gives no input back.
pub proof fn lemma_tuple1_consumption<I: InputLength, E, FnA: Parser<I, E>>(
    t: (FnA,),
    i: I,
    i1: I,
)
    requires
        t.succeeds(i),
        i1 == t.0.remaining(i),
    ensures
        i1 == t.remaining(i),
        i1.length() <= i.length(),
{
    t.0.remaining_no_longer(i);
}

/// Order preservation for the 1-parser tuple: the single position
/// holds a value its parser produces when run alone on the input.
pub proof fn lemma_tuple1_order<I: InputLength, E, FnA: Parser<I, E>>(
    t: (FnA,),
    i: I,
    o: (FnA::Output,),
)
    requires
        t.produces(i, o),
    ensures
        t.0.produces(i, o.0),
{
}

/// Fail-fast for the 1-parser tuple: its component's failure is the
/// whole outcome, forwarded unchanged.
pub proof fn lemma_tuple1_fail_fast<I: InputLength, E, FnA: Parser<I, E>>(
    t: (FnA,),
    i: I,
)
    ensures
        !t.0.succeeds(i) ==> !t.succeeds(i) && t.failure(i) == t.0.failure(i),
{
}

/// Consumption additivity for the 2-parser tuple: a successful run
/// consumes exactly the sum of what the components consume, each on the
/// cursor its predecessor left, and no component gives input back.
pub proof fn lemma_tuple2_consumption<I: InputLength, E, FnA: Parser<I, E>, FnB: Parser<I, E>>(
    t: (FnA, FnB),
    i: I,
    i1: I, i2: I,
)
    requires
        t.succeeds(i),
        i1 == t.0.remaining(i),
        i2 == t.1.remaining(i1),
    ensures
        i2 == t.remaining(i),
        i1.length() <= i.length(),
        i2.length() <= i1.length(),
        i.length() - i2.length() == (i.length() - i1.length()) + (i1.length() - i2.length()),
{
    t.0.remaining_no_longer(i);
    t.1.remaining_no_longer(i1);
}

/// Order preservation for the 2-parser tuple: position `k` of the
/// product holds a value parser `k` produces when run alone on the
/// cursor left by parser `k - 1`.
pub proof fn lemma_tuple2_order<I: InputLength, E, FnA: Parser<I, E>, FnB: Parser<I, E>>(
    t: (FnA, FnB),
    i: I,
    i1: I,
    o: (FnA::Output, FnB::Output),
)
    requires
        i1 == t.0.remaining(i),
        t.produces(i, o),
    ensures
        t.0.produces(i, o.0),
        t.1.produces(i1, o.1),
{
}

/// Fail-fast for the 2-parser tuple: the first failing component
/// decides the outcome, which is forwarded unchanged; the `parse`
/// contract adds that the components after it are never run.
pub proof fn lemma_tuple2_fail_fast<I: InputLength, E, FnA: Parser<I, E>, FnB: Parser<I, E>>(
    t: (FnA, FnB),
    i: I,
    i1: I,
)
    requires
        i1 == t.0.remaining(i),
    ensures
        !t.0.succeeds(i) ==> !t.succeeds(i) && t.failure(i) == t.0.failure(i),
        t.0.succeeds(i) && !t.1.succeeds(i1) ==> !t.succeeds(i) && t.failure(i) == t.1.failure(i1),
{
}

/// Consumption additivity for the 3-parser tuple: a successful run
/// consumes exactly the sum of what the components consume, each on the
/// cursor its predecessor left, and no component gives input back.
pub proof fn lemma_tuple3_consumption<I: InputLength, E, FnA: Parser<I, E>, FnB: Parser<I, E>, FnC: Parser<I, E>>(
    t: (FnA, FnB, FnC),
    i: I,
    i1: I, i2: I, i3: I,
)
    requires
        t.succeeds(i),
        i1 == t.0.remaining(i),
        i2 == t.1.remaining(i1),
        i3 == t.2.remaining(i2),
    ensures
        i3 == t.remaining(i),
        i1.length() <= i.length(),
        i2.length() <= i1.length(),
        i3.length() <= i2.length(),
        i.length() - i3.length() == (i.length() - i1.length()) + (i1.length() - i2.length()) + (i2.length() - i3.length()),
{
    t.0.remaining_no_longer(i);
    t.1.remaining_no_longer(i1);
    t.2.remaining_no_longer(i2);
}

/// Order preservation for the 3-parser tuple: position `k` of the
/// product holds a value parser `k` produces when run alone on the
/// cursor left by parser `k - 1`.
pub proof fn lemma_tuple3_order<I: InputLength, E, FnA: Parser<I, E>, FnB: Parser<I, E>, FnC: Parser<I, E>>(
    t: (FnA, FnB, FnC),
    i: I,
    i1: I, i2: I,
    o: (FnA::Output, FnB::Output, FnC::Output),
)
    requires
        i1 == t.0.remaining(i),
        i2 == t.1.remaining(i1),
        t.produces(i, o),
    ensures
        t.0.produces(i, o.0),
        t.1.produces(i1, o.1),
        t.2.produces(i2, o.2),
{
}

/// Fail-fast for the 3-parser tuple: the first failing component
/// decides the outcome, which is forwarded unchanged; the `parse`
/// contract adds that the components after it are never run.
pub proof fn lemma_tuple3_fail_fast<I: InputLength, E, FnA: Parser<I, E>, FnB: Parser<I, E>, FnC: Parser<I, E>>(
    t: (FnA, FnB, FnC),
    i: I,
    i1: I, i2: I,
)
    requires
        i1 == t.0.remaining(i),
        i2 == t.1.remaining(i1),
    ensures
        !t.0.succeeds(i) ==> !t.succeeds(i) && t.failure(i) == t.0.failure(i),
        t.0.succeeds(i) && !t.1.succeeds(i1) ==> !t.succeeds(i) && t.failure(i) == t.1.failure(i1),
        t.0.succeeds(i) && t.1.succeeds(i1) && !t.2.succeeds(i2) ==> !t.succeeds(i) && t.failure(i) == t.2.failure(i2),
{
}

/// Consumption additivity for the 4-parser tuple: a successful run
/// consumes exactly the sum of what the components consume, each on the
/// cursor its predecessor left, and no component gives input back.
pub proof fn lemma_tuple4_consumption<
    I: InputLength,
    E,
    FnA: Parser<I, E>,
    FnB: Parser<I, E>,
    FnC: Parser<I, E>,
    FnD: Parser<I, E>,
>(
    t: (FnA, FnB, FnC, FnD),
    i: I,
    i1: I, i2: I, i3: I, i4: I,
)
    requires
        t.succeeds(i),
        i1 == t.0.remaining(i),
        i2 == t.1.remaining(i1),
        i3 == t.2.remaining(i2),
        i4 == t.3.remaining(i3),
    ensures
        i4 == t.remaining(i),
        i1.length() <= i.length(),
        i2.length() <= i1.length(),
        i3.length() <= i2.length(),
        i4.length() <= i3.length(),
        i.length() - i4.length() == (i.length() - i1.length()) + (i1.length() - i2.length()) + (i2.length() - i3.length()) + (i3.length() - i4.length()),
{
    t.0.remaining_no_longer(i);
    t.1.remaining_no_longer(i1);
    t.2.remaining_no_longer(i2);
    t.3.remaining_no_longer(i3);
}

/// Order preservation for the 4-parser tuple: position `k` of the
/// product holds a value parser `k` produces when run alone on the
/// cursor left by parser `k - 1`.
pub proof fn lemma_tuple4_order<
    I: InputLength,
    E,
    FnA: Parser<I, E>,
    FnB: Parser<I, E>,
    FnC: Parser<I, E>,
    FnD: Parser<I, E>,
>(
    t: (FnA, FnB, FnC, FnD),
    i: I,
    i1: I, i2: I, i3: I,
    o: (FnA::Output, FnB::Output, FnC::Output, FnD::Output),
)
    requires
        i1 == t.0.remaining(i),
        i2 == t.1.remaining(i1),
        i3 == t.2.remaining(i2),
        t.produces(i, o),
    ensures
        t.0.produces(i, o.0),
        t.1.produces(i1, o.1),
        t.2.produces(i2, o.2),
        t.3.produces(i3, o.3),
{
}

/// Fail-fast for the 4-parser tuple: the first failing component
/// decides the outcome, which is forwarded unchanged; the `parse`
/// contract adds that the components after it are never run.
pub proof fn lemma_tuple4_fail_fast<
    I: InputLength,
    E,
    FnA: Parser<I, E>,
    FnB: Parser<I, E>,
    FnC: Parser<I, E>,
    FnD: Parser<I, E>,
>(
    t: (FnA, FnB, FnC, FnD),
    i: I,
    i1: I, i2: I, i3: I,
)
    requires
        i1 == t.0.remaining(i),
        i2 == t.1.remaining(i1),
        i3 == t.2.remaining(i2),
    ensures
        !t.0.succeeds(i) ==> !t.succeeds(i) && t.failure(i) == t.0.failure(i),
        t.0.succeeds(i) && !t.1.succeeds(i1) ==> !t.succeeds(i) && t.failure(i) == t.1.failure(i1),
        t.0.succeeds(i) && t.1.succeeds(i1) && !t.2.succeeds(i2) ==> !t.succeeds(i) && t.failure(i) == t.2.failure(i2),
        t.0.succeeds(i) && t.1.succeeds(i1) && t.2.succeeds(i2) && !t.3.succeeds(i3) ==> !t.succeeds(i) && t.failure(i) == t.3.failure(i3),
{
}

/// Consumption additivity for the 5-parser tuple: a successful run
/// consumes exactly the sum of what the components consume, each on the
/// cursor its predecessor left, and no component gives input back.
pub proof fn lemma_tuple5_consumption<
    I: InputLength,
    E,
    FnA: Parser<I, E>,
    FnB: Parser<I, E>,
    FnC: Parser<I, E>,
    FnD: Parser<I, E>,
    FnE: Parser<I, E>,
>(
    t: (FnA, FnB, FnC, FnD, FnE),
    i: I,
    i1: I, i2: I, i3: I, i4: I, i5: I,
)
    requires
        t.succeeds(i),
        i1 == t.0.remaining(i),
        i2 == t.1.remaining(i1),
        i3 == t.2.remaining(i2),
        i4 == t.3.remaining(i3),
        i5 == t.4.remaining(i4),
    ensures
        i5 == t.remaining(i),
        i1.length() <= i.length(),
        i2.length() <= i1.length(),
        i3.length() <= i2.length(),
        i4.length() <= i3.length(),
        i5.length() <= i4.length(),
        i.length() - i5.length() == (i.length() - i1.length()) + (i1.length() - i2.length()) + (i2.length() - i3.length()) + (i3.length() - i4.length()) + (i4.length() - i5.length()),
{
    t.0.remaining_no_longer(i);
    t.1.remaining_no_longer(i1);
    t.2.remaining_no_longer(i2);
    t.3.remaining_no_longer(i3);
    t.4.remaining_no_longer(i4);
}

/// Order preservation for the 5-parser tuple: position `k` of the
/// product holds a value parser `k` produces when run alone on the
/// cursor left by parser `k - 1`.
pub proof fn lemma_tuple5_order<
    I: InputLength,
    E,
    FnA: Parser<I, E>,
    FnB: Parser<I, E>,
    FnC: Parser<I, E>,
    FnD: Parser<I, E>,
    FnE: Parser<I, E>,
>(
    t: (FnA, FnB, FnC, FnD, FnE),
    i: I,
    i1: I, i2: I, i3: I, i4: I,
    o: (FnA::Output, FnB::Output, FnC::Output, FnD::Output, FnE::Output),
)
    requires
        i1 == t.0.remaining(i),
        i2 == t.1.remaining(i1),
        i3 == t.2.remaining(i2),
        i4 == t.3.remaining(i3),
        t.produces(i, o),
    ensures
        t.0.produces(i, o.0),
        t.1.produces(i1, o.1),
        t.2.produces(i2, o.2),
        t.3.produces(i3, o.3),
        t.4.produces(i4, o.4),
{
}

/// Fail-fast for the 5-parser tuple: the first failing component
/// decides the outcome, which is forwarded unchanged; the `parse`
/// contract adds that the components after it are never run.
pub proof fn lemma_tuple5_fail_fast<
    I: InputLength,
    E,
    FnA: Parser<I, E>,
    FnB: Parser<I, E>,
    FnC: Parser<I, E>,
    FnD: Parser<I, E>,
    FnE: Parser<I, E>,
>(
    t: (FnA, FnB, FnC, FnD, FnE),
    i: I,
    i1: I, i2: I, i3: I, i4: I,
)
    requires
        i1 == t.0.remaining(i),
        i2 == t.1.remaining(i1),
        i3 == t.2.remaining(i2),
        i4 == t.3.remaining(i3),
    ensures
        !t.0.succeeds(i) ==> !t.succeeds(i) && t.failure(i) == t.0.failure(i),
        t.0.succeeds(i) && !t.1.succeeds(i1) ==> !t.succeeds(i) && t.failure(i) == t.1.failure(i1),
        t.0.succeeds(i) && t.1.succeeds(i1) && !t.2.succeeds(i2) ==> !t.succeeds(i) && t.failure(i) == t.2.failure(i2),
        t.0.succeeds(i) && t.1.succeeds(i1) && t.2.succeeds(i2) && !t.3.succeeds(i3) ==> !t.succeeds(i) && t.failure(i) == t.3.failure(i3),
        t.0.succeeds(i) && t.1.succeeds(i1) && t.2.succeeds(i2) && t.3.succeeds(i3) && !t.4.succeeds(i4) ==> !t.succeeds(i) && t.failure(i) == t.4.failure(i4),
{
}

/// Consumption additivity for the 6-parser tuple: a successful run
/// consumes exactly the sum of what the components consume, each on the
/// cursor its predecessor left, and no component gives input back.
pub proof fn lemma_tuple6_consumption<
    I: InputLength,
    E,
    FnA: Parser<I, E>,
    FnB: Parser<I, E>,
    FnC: Parser<I, E>,
    FnD: Parser<I, E>,
    FnE: Parser<I, E>,
    FnF: Parser<I, E>,
>(
    t: (FnA, FnB, FnC, FnD, FnE, FnF),
    i: I,
    i1: I, i2: I, i3: I, i4: I, i5: I, i6: I,
)
    requires
        t.succeeds(i),
        i1 == t.0.remaining(i),
        i2 == t.1.remaining(i1),
        i3 == t.2.remaining(i2),
        i4 == t.3.remaining(i3),
        i5 == t.4.remaining(i4),
        i6 == t.5.remaining(i5),
    ensures
        i6 == t.remaining(i),
        i1.length() <= i.length(),
        i2.length() <= i1.length(),
        i3.length() <= i2.length(),
        i4.length() <= i3.length(),
        i5.length() <= i4.length(),
        i6.length() <= i5.length(),
        i.length() - i6.length() == (i.length() - i1.length()) + (i1.length() - i2.length()) + (i2.length() - i3.length()) + (i3.length() - i4.length()) + (i4.length() - i5.length()) + (i5.length() - i6.length()),
{
    t.0.remaining_no_longer(i);
    t.1.remaining_no_longer(i1);
    t.2.remaining_no_longer(i2);
    t.3.remaining_no_longer(i3);
    t.4.remaining_no_longer(i4);
    t.5.remaining_no_longer(i5);
}

/// Order preservation for the 6-parser tuple: position `k` of the
/// product holds a value parser `k` produces when run alone on the
/// cursor left by parser `k - 1`.
pub proof fn lemma_tuple6_order<
    I: InputLength,
    E,
    FnA: Parser<I, E>,
    FnB: Parser<I, E>,
    FnC: Parser<I, E>,
    FnD: Parser<I, E>,
    FnE: Parser<I, E>,
    FnF: Parser<I, E>,
>(
    t: (FnA, FnB, FnC, FnD, FnE, FnF),
    i: I,
    i1: I, i2: I, i3: I, i4: I, i5: I,
    o: (FnA::Output, FnB::Output, FnC::Output, FnD::Output, FnE::Output, FnF::Output),
)
    requires
        i1 == t.0.remaining(i),
        i2 == t.1.remaining(i1),
        i3 == t.2.remaining(i2),
        i4 == t.3.remaining(i3),
        i5 == t.4.remaining(i4),
        t.produces(i, o),
    ensures
        t.0.produces(i, o.0),
        t.1.produces(i1, o.1),
        t.2.produces(i2, o.2),
        t.3.produces(i3, o.3),
        t.4.produces(i4, o.4),
        t.5.produces(i5, o.5),
{
}

/// Fail-fast for the 6-parser tuple: the first failing component
/// decides the outcome, which is forwarded unchanged; the `parse`
/// contract adds that the components after it are never run.
pub proof fn lemma_tuple6_fail_fast<
    I: InputLength,
    E,
    FnA: Parser<I, E>,
    FnB: Parser<I, E>,
    FnC: Parser<I, E>,
    FnD: Parser<I, E>,
    FnE: Parser<I, E>,
    FnF: Parser<I, E>,
>(
    t: (FnA, FnB, FnC, FnD, FnE, FnF),
    i: I,
    i1: I, i2: I, i3: I, i4: I, i5: I,
)
    requires
        i1 == t.0.remaining(i),
        i2 == t.1.remaining(i1),
        i3 == t.2.remaining(i2),
        i4 == t.3.remaining(i3),
        i5 == t.4.remaining(i4),
    ensures
        !t.0.succeeds(i) ==> !t.succeeds(i) && t.failure(i) == t.0.failure(i),
        t.0.succeeds(i) && !t.1.succeeds(i1) ==> !t.succeeds(i) && t.failure(i) == t.1.failure(i1),
        t.0.succeeds(i) && t.1.succeeds(i1) && !t.2.succeeds(i2) ==> !t.succeeds(i) && t.failure(i) == t.2.failure(i2),
        t.0.succeeds(i) && t.1.succeeds(i1) && t.2.succeeds(i2) && !t.3.succeeds(i3) ==> !t.succeeds(i) && t.failure(i) == t.3.failure(i3),
        t.0.succeeds(i) && t.1.succeeds(i1) && t.2.succeeds(i2) && t.3.succeeds(i3) && !t.4.succeeds(i4) ==> !t.succeeds(i) && t.failure(i) == t.4.failure(i4),
        t.0.succeeds(i) && t.1.succeeds(i1) && t.2.succeeds(i2) && t.3.succeeds(i3) && t.4.succeeds(i4) && !t.5.succeeds(i5) ==> !t.succeeds(i) && t.failure(i) == t.5.failure(i5),
{
}

/// Consumption additivity for the 7-parser tuple: a successful run
/// consumes exactly the sum of what the components consume, each on the
/// cursor its predecessor left, and no component gives input back.
pub proof fn lemma_tuple7_consumption<
    I: InputLength,
    E,
    FnA: Parser<I, E>,
    FnB: Parser<I, E>,
    FnC: Parser<I, E>,
    FnD: Parser<I, E>,
    FnE: Parser<I, E>,
    FnF: Parser<I, E>,
    FnG: Parser<I, E>,
>(
    t: (FnA, FnB, FnC, FnD, FnE, FnF, FnG),
    i: I,
    i1: I, i2: I, i3: I, i4: I, i5: I, i6: I, i7: I,
)
    requires
        t.succeeds(i),
        i1 == t.0.remaining(i),
        i2 == t.1.remaining(i1),
        i3 == t.2.remaining(i2),
        i4 == t.3.remaining(i3),
        i5 == t.4.remaining(i4),
        i6 == t.5.remaining(i5),
        i7 == t.6.remaining(i6),
    ensures
        i7 == t.remaining(i),
        i1.length() <= i.length(),
        i2.length() <= i1.length(),
        i3.length() <= i2.length(),
        i4.length() <= i3.length(),
        i5.length() <= i4.length(),
        i6.length() <= i5.length(),
        i7.length() <= i6.length(),
        i.length() - i7.length() == (i.length() - i1.length()) + (i1.length() - i2.length()) + (i2.length() - i3.length()) + (i3.length() - i4.length()) + (i4.length() - i5.length()) + (i5.length() - i6.length()) + (i6.length() - i7.length()),
{
    t.0.remaining_no_longer(i);
    t.1.remaining_no_longer(i1);
    t.2.remaining_no_longer(i2);
    t.3.remaining_no_longer(i3);
    t.4.remaining_no_longer(i4);
    t.5.remaining_no_longer(i5);
    t.6.remaining_no_longer(i6);
}

/// Order preservation for the 7-parser tuple: position `k` of the
/// product holds a value parser `k` produces when run alone on the
/// cursor left by parser `k - 1`.
pub proof fn lemma_tuple7_order<
    I: InputLength,
    E,
    FnA: Parser<I, E>,
    FnB: Parser<I, E>,
    FnC: Parser<I, E>,
    FnD: Parser<I, E>,
    FnE: Parser<I, E>,
    FnF: Parser<I, E>,
    FnG: Parser<I, E>,
>(
    t: (FnA, FnB, FnC, FnD, FnE, FnF, FnG),
    i: I,
    i1: I, i2: I, i3: I, i4: I, i5: I, i6: I,
    o: (FnA::Output, FnB::Output, FnC::Output, FnD::Output, FnE::Output, FnF::Output, FnG::Output),
)
    requires
        i1 == t.0.remaining(i),
        i2 == t.1.remaining(i1),
        i3 == t.2.remaining(i2),
        i4 == t.3.remaining(i3),
        i5 == t.4.remaining(i4),
        i6 == t.5.remaining(i5),
        t.produces(i, o),
    ensures
        t.0.produces(i, o.0),
        t.1.produces(i1, o.1),
        t.2.produces(i2, o.2),
        t.3.produces(i3, o.3),
        t.4.produces(i4, o.4),
        t.5.produces(i5, o.5),
        t.6.produces(i6, o.6),
{
}

/// Fail-fast for the 7-parser tuple: the first failing component
/// decides the outcome, which is forwarded unchanged; the `parse`
/// contract adds that the components after it are never run.
pub proof fn lemma_tuple7_fail_fast<
    I: InputLength,
    E,
    FnA: Parser<I, E>,
    FnB: Parser<I, E>,
    FnC: Parser<I, E>,
    FnD: Parser<I, E>,
    FnE: Parser<I, E>,
    FnF: Parser<I, E>,
    FnG: Parser<I, E>,
>(
    t: (FnA, FnB, FnC, FnD, FnE, FnF, FnG),
    i: I,
    i1: I, i2: I, i3: I, i4: I, i5: I, i6: I,
)
    requires
        i1 == t.0.remaining(i),
        i2 == t.1.remaining(i1),
        i3 == t.2.remaining(i2),
        i4 == t.3.remaining(i3),
        i5 == t.4.remaining(i4),
        i6 == t.5.remaining(i5),
    ensures
        !t.0.succeeds(i) ==> !t.succeeds(i) && t.failure(i) == t.0.failure(i),
        t.0.succeeds(i) && !t.1.succeeds(i1) ==> !t.succeeds(i) && t.failure(i) == t.1.failure(i1),
        t.0.succeeds(i) && t.1.succeeds(i1) && !t.2.succeeds(i2) ==> !t.succeeds(i) && t.failure(i) == t.2.failure(i2),
        t.0.succeeds(i) && t.1.succeeds(i1) && t.2.succeeds(i2) && !t.3.succeeds(i3) ==> !t.succeeds(i) && t.failure(i) == t.3.failure(i3),
        t.0.succeeds(i) && t.1.succeeds(i1) && t.2.succeeds(i2) && t.3.succeeds(i3) && !t.4.succeeds(i4) ==> !t.succeeds(i) && t.failure(i) == t.4.failure(i4),
        t.0.succeeds(i) && t.1.succeeds(i1) && t.2.succeeds(i2) && t.3.succeeds(i3) && t.4.succeeds(i4) && !t.5.succeeds(i5) ==> !t.succeeds(i) && t.failure(i) == t.5.failure(i5),
        t.0.succeeds(i) && t.1.succeeds(i1) && t.2.succeeds(i2) && t.3.succeeds(i3) && t.4.succeeds(i4) && t.5.succeeds(i5) && !t.6.succeeds(i6) ==> !t.succeeds(i) && t.failure(i) == t.6.failure(i6),
{
}

/// Consumption additivity for the 8-parser tuple: a successful run
/// consumes exactly the sum of what the components consume, each on the
/// cursor its predecessor left, and no component gives input back.
pub proof fn lemma_tuple8_consumption<
    I: InputLength,
    E,
    FnA: Parser<I, E>,
    FnB: Parser<I, E>,
    FnC: Parser<I, E>,
    FnD: Parser<I, E>,
    FnE: Parser<I, E>,
    FnF: Parser<I, E>,
    FnG: Parser<I, E>,
    FnH: Parser<I, E>,
>(
    t: (FnA, FnB, FnC, FnD, FnE, FnF, FnG, FnH),
    i: I,
    i1: I, i2: I, i3: I, i4: I, i5: I, i6: I, i7: I, i8: I,
)
    requires
        t.succeeds(i),
        i1 == t.0.remaining(i),
        i2 == t.1.remaining(i1),
        i3 == t.2.remaining(i2),
        i4 == t.3.remaining(i3),
        i5 == t.4.remaining(i4),
        i6 == t.5.remaining(i5),
        i7 == t.6.remaining(i6),
        i8 == t.7.remaining(i7),
    ensures
        i8 == t.remaining(i),
        i1.length() <= i.length(),
        i2.length() <= i1.length(),
        i3.length() <= i2.length(),
        i4.length() <= i3.length(),
        i5.length() <= i4.length(),
        i6.length() <= i5.length(),
        i7.length() <= i6.length(),
        i8.length() <= i7.length(),
        i.length() - i8.length() == (i.length() - i1.length()) + (i1.length() - i2.length()) + (i2.length() - i3.length()) + (i3.length() - i4.length()) + (i4.length() - i5.length()) + (i5.length() - i6.length()) + (i6.length() - i7.length()) + (i7.length() - i8.length()),
{
    t.0.remaining_no_longer(i);
    t.1.remaining_no_longer(i1);
    t.2.remaining_no_longer(i2);
    t.3.remaining_no_longer(i3);
    t.4.remaining_no_longer(i4);
    t.5.remaining_no_longer(i5);
    t.6.remaining_no_longer(i6);
    t.7.remaining_no_longer(i7);
}

/// Order preservation for the 8-parser tuple: position `k` of the
/// product holds a value parser `k` produces when run alone on the
/// cursor left by parser `k - 1`.
pub proof fn lemma_tuple8_order<
    I: InputLength,
    E,
    FnA: Parser<I, E>,
    FnB: Parser<I, E>,
    FnC: Parser<I, E>,
    FnD: Parser<I, E>,
    FnE: Parser<I, E>,
    FnF: Parser<I, E>,
    FnG: Parser<I, E>,
    FnH: Parser<I, E>,
>(
    t: (FnA, FnB, FnC, FnD, FnE, FnF, FnG, FnH),
    i: I,
    i1: I, i2: I, i3: I, i4: I, i5: I, i6: I, i7: I,
    o: (FnA::Output, FnB::Output, FnC::Output, FnD::Output, FnE::Output, FnF::Output, FnG::Output, FnH::Output),
)
    requires
        i1 == t.0.remaining(i),
        i2 == t.1.remaining(i1),
        i3 == t.2.remaining(i2),
        i4 == t.3.remaining(i3),
        i5 == t.4.remaining(i4),
        i6 == t.5.remaining(i5),
        i7 == t.6.remaining(i6),
        t.produces(i, o),
    ensures
        t.0.produces(i, o.0),
        t.1.produces(i1, o.1),
        t.2.produces(i2, o.2),
        t.3.produces(i3, o.3),
        t.4.produces(i4, o.4),
        t.5.produces(i5, o.5),
        t.6.produces(i6, o.6),
        t.7.produces(i7, o.7),
{
}

/// Fail-fast for the 8-parser tuple: the first failing component
/// decides the outcome, which is forwarded unchanged; the `parse`
/// contract adds that the components after it are never run.
pub proof fn lemma_tuple8_fail_fast<
    I: InputLength,
    E,
    FnA: Parser<I, E>,
    FnB: Parser<I, E>,
    FnC: Parser<I, E>,
    FnD: Parser<I, E>,
    FnE: Parser<I, E>,
    FnF: Parser<I, E>,
    FnG: Parser<I, E>,
    FnH: Parser<I, E>,
>(
    t: (FnA, FnB, FnC, FnD, FnE, FnF, FnG, FnH),
    i: I,
    i1: I, i2: I, i3: I, i4: I, i5: I, i6: I, i7: I,
)
    requires
        i1 == t.0.remaining(i),
        i2 == t.1.remaining(i1),
        i3 == t.2.remaining(i2),
        i4 == t.3.remaining(i3),
        i5 == t.4.remaining(i4),
        i6 == t.5.remaining(i5),
        i7 == t.6.remaining(i6),
    ensures
        !t.0.succeeds(i) ==> !t.succeeds(i) && t.failure(i) == t.0.failure(i),
        t.0.succeeds(i) && !t.1.succeeds(i1) ==> !t.succeeds(i) && t.failure(i) == t.1.failure(i1),
        t.0.succeeds(i) && t.1.succeeds(i1) && !t.2.succeeds(i2) ==> !t.succeeds(i) && t.failure(i) == t.2.failure(i2),
        t.0.succeeds(i) && t.1.succeeds(i1) && t.2.succeeds(i2) && !t.3.succeeds(i3) ==> !t.succeeds(i) && t.failure(i) == t.3.failure(i3),
        t.0.succeeds(i) && t.1.succeeds(i1) && t.2.succeeds(i2) && t.3.succeeds(i3) && !t.4.succeeds(i4) ==> !t.succeeds(i) && t.failure(i) == t.4.failure(i4),
        t.0.succeeds(i) && t.1.succeeds(i1) && t.2.succeeds(i2) && t.3.succeeds(i3) && t.4.succeeds(i4) && !t.5.succeeds(i5) ==> !t.succeeds(i) && t.failure(i) == t.5.failure(i5),
        t.0.succeeds(i) && t.1.succeeds(i1) && t.2.succeeds(i2) && t.3.succeeds(i3) && t.4.succeeds(i4) && t.5.succeeds(i5) && !t.6.succeeds(i6) ==> !t.succeeds(i) && t.failure(i) == t.6.failure(i6),
        t.0.succeeds(i) && t.1.succeeds(i1) && t.2.succeeds(i2) && t.3.succeeds(i3) && t.4.succeeds(i4) && t.5.succeeds(i5) && t.6.succeeds(i6) && !t.7.succeeds(i7) ==> !t.succeeds(i) && t.failure(i) == t.7.failure(i7),
{
}

/// Consumption additivity for the 9-parser tuple: a successful run
/// consumes exactly the sum of what the components consume, each on the
/// cursor its predecessor left, and no component gives input back.
pub proof fn lemma_tuple9_consumption<
    I: InputLength,
    E,
    FnA: Parser<I, E>,
    FnB: Parser<I, E>,
    FnC: Parser<I, E>,
    FnD: Parser<I, E>,
    FnE: Parser<I, E>,
    FnF: Parser<I, E>,
    FnG: Parser<I, E>,
    FnH: Parser<I, E>,
    FnI: Parser<I, E>,
>(
    t: (FnA, FnB, FnC, FnD, FnE, FnF, FnG, FnH, FnI),
    i: I,
    i1: I, i2: I, i3: I, i4: I, i5: I, i6: I, i7: I, i8: I, i9: I,
)
    requires
        t.succeeds(i),
        i1 == t.0.remaining(i),
        i2 == t.1.remaining(i1),
        i3 == t.2.remaining(i2),
        i4 == t.3.remaining(i3),
        i5 == t.4.remaining(i4),
        i6 == t.5.remaining(i5),
        i7 == t.6.remaining(i6),
        i8 == t.7.remaining(i7),
        i9 == t.8.remaining(i8),
    ensures
        i9 == t.remaining(i),
        i1.length() <= i.length(),
        i2.length() <= i1.length(),
        i3.length() <= i2.length(),
        i4.length() <= i3.length(),
        i5.length() <= i4.length(),
        i6.length() <= i5.length(),
        i7.length() <= i6.length(),
        i8.length() <= i7.length(),
        i9.length() <= i8.length(),
        i.length() - i9.length() == (i.length() - i1.length()) + (i1.length() - i2.length()) + (i2.length() - i3.length()) + (i3.length() - i4.length()) + (i4.length() - i5.length()) + (i5.length() - i6.length()) + (i6.length() - i7.length()) + (i7.length() - i8.length()) + (i8.length() - i9.length()),
{
    t.0.remaining_no_longer(i);
    t.1.remaining_no_longer(i1);
    t.2.remaining_no_longer(i2);
    t.3.remaining_no_longer(i3);
    t.4.remaining_no_longer(i4);
    t.5.remaining_no_longer(i5);
    t.6.remaining_no_longer(i6);
    t.7.remaining_no_longer(i7);
    t.8.remaining_no_longer(i8);
}

/// Order preservation for the 9-parser tuple: position `k` of the
/// product holds a value parser `k` produces when run alone on the
/// cursor left by parser `k - 1`.
pub proof fn lemma_tuple9_order<
    I: InputLength,
    E,
    FnA: Parser<I, E>,
    FnB: Parser<I, E>,
    FnC: Parser<I, E>,
    FnD: Parser<I, E>,
    FnE: Parser<I, E>,
    FnF: Parser<I, E>,
    FnG: Parser<I, E>,
    FnH: Parser<I, E>,
    FnI: Parser<I, E>,
>(
    t: (FnA, FnB, FnC, FnD, FnE, FnF, FnG, FnH, FnI),
    i: I,
    i1: I, i2: I, i3: I, i4: I, i5: I, i6: I, i7: I, i8: I,
    o: (FnA::Output, FnB::Output, FnC::Output, FnD::Output, FnE::Output, FnF::Output, FnG::Output, FnH::Output, FnI::Output),
)
    requires
        i1 == t.0.remaining(i),
        i2 == t.1.remaining(i1),
        i3 == t.2.remaining(i2),
        i4 == t.3.remaining(i3),
        i5 == t.4.remaining(i4),
        i6 == t.5.remaining(i5),
        i7 == t.6.remaining(i6),
        i8 == t.7.remaining(i7),
        t.produces(i, o),
    ensures
        t.0.produces(i, o.0),
        t.1.produces(i1, o.1),
        t.2.produces(i2, o.2),
        t.3.produces(i3, o.3),
        t.4.produces(i4, o.4),
        t.5.produces(i5, o.5),
        t.6.produces(i6, o.6),
        t.7.produces(i7, o.7),
        t.8.produces(i8, o.8),
{
}

/// Fail-fast for the 9-parser tuple: the first failing component
/// decides the outcome, which is forwarded unchanged; the `parse`
/// contract adds that the components after it are never run.
pub proof fn lemma_tuple9_fail_fast<
    I: InputLength,
    E,
    FnA: Parser<I, E>,
    FnB: Parser<I, E>,
    FnC: Parser<I, E>,
    FnD: Parser<I, E>,
    FnE: Parser<I, E>,
    FnF: Parser<I, E>,
    FnG: Parser<I, E>,
    FnH: Parser<I, E>,
    FnI: Parser<I, E>,
>(
    t: (FnA, FnB, FnC, FnD, FnE, FnF, FnG, FnH, FnI),
    i: I,
    i1: I, i2: I, i3: I, i4: I, i5: I, i6: I, i7: I, i8: I,
)
    requires
        i1 == t.0.remaining(i),
        i2 == t.1.remaining(i1),
        i3 == t.2.remaining(i2),
        i4 == t.3.remaining(i3),
        i5 == t.4.remaining(i4),
        i6 == t.5.remaining(i5),
        i7 == t.6.remaining(i6),
        i8 == t.7.remaining(i7),
    ensures
        !t.0.succeeds(i) ==> !t.succeeds(i) && t.failure(i) == t.0.failure(i),
        t.0.succeeds(i) && !t.1.succeeds(i1) ==> !t.succeeds(i) && t.failure(i) == t.1.failure(i1),
        t.0.succeeds(i) && t.1.succeeds(i1) && !t.2.succeeds(i2) ==> !t.succeeds(i) && t.failure(i) == t.2.failure(i2),
        t.0.succeeds(i) && t.1.succeeds(i1) && t.2.succeeds(i2) && !t.3.succeeds(i3) ==> !t.succeeds(i) && t.failure(i) == t.3.failure(i3),
        t.0.succeeds(i) && t.1.succeeds(i1) && t.2.succeeds(i2) && t.3.succeeds(i3) && !t.4.succeeds(i4) ==> !t.succeeds(i) && t.failure(i) == t.4.failure(i4),
        t.0.succeeds(i) && t.1.succeeds(i1) && t.2.succeeds(i2) && t.3.succeeds(i3) && t.4.succeeds(i4) && !t.5.succeeds(i5) ==> !t.succeeds(i) && t.failure(i) == t.5.failure(i5),
        t.0.succeeds(i) && t.1.succeeds(i1) && t.2.succeeds(i2) && t.3.succeeds(i3) && t.4.succeeds(i4) && t.5.succeeds(i5) && !t.6.succeeds(i6) ==> !t.succeeds(i) && t.failure(i) == t.6.failure(i6),
        t.0.succeeds(i) && t.1.succeeds(i1) && t.2.succeeds(i2) && t.3.succeeds(i3) && t.4.succeeds(i4) && t.5.succeeds(i5) && t.6.succeeds(i6) && !t.7.succeeds(i7) ==> !t.succeeds(i) && t.failure(i) == t.7.failure(i7),
        t.0.succeeds(i) && t.1.succeeds(i1) && t.2.succeeds(i2) && t.3.succeeds(i3) && t.4.succeeds(i4) && t.5.succeeds(i5) && t.6.succeeds(i6) && t.7.succeeds(i7) && !t.8.succeeds(i8) ==> !t.succeeds(i) && t.failure(i) == t.8.failure(i8),
{
}

/// Consumption additivity for the 10-parser tuple: a successful run
/// consumes exactly the sum of what the components consume, each on the
/// cursor its predecessor left, and no component gives input back.
pub proof fn lemma_tuple10_consumption<
    I: InputLength,
    E,
    FnA: Parser<I, E>,
    FnB: Parser<I, E>,
    FnC: Parser<I, E>,
    FnD: Parser<I, E>,
    FnE: Parser<I, E>,
    FnF: Parser<I, E>,
    FnG: Parser<I, E>,
    FnH: Parser<I, E>,
    FnI: Parser<I, E>,
    FnJ: Parser<I, E>,
>(
    t: (FnA, FnB, FnC, FnD, FnE, FnF, FnG, FnH, FnI, FnJ),
    i: I,
    i1: I, i2: I, i3: I, i4: I, i5: I, i6: I, i7: I, i8: I, i9: I, i10: I,
)
    requires
        t.succeeds(i),
        i1 == t.0.remaining(i),
        i2 == t.1.remaining(i1),
        i3 == t.2.remaining(i2),
        i4 == t.3.remaining(i3),
        i5 == t.4.remaining(i4),
        i6 == t.5.remaining(i5),
        i7 == t.6.remaining(i6),
        i8 == t.7.remaining(i7),
        i9 == t.8.remaining(i8),
        i10 == t.9.remaining(i9),
    ensures
        i10 == t.remaining(i),
        i1.length() <= i.length(),
        i2.length() <= i1.length(),
        i3.length() <= i2.length(),
        i4.length() <= i3.length(),
        i5.length() <= i4.length(),
        i6.length() <= i5.length(),
        i7.length() <= i6.length(),
        i8.length() <= i7.length(),
        i9.length() <= i8.length(),
        i10.length() <= i9.length(),
        i.length() - i10.length() == (i.length() - i1.length()) + (i1.length() - i2.length()) + (i2.length() - i3.length()) + (i3.length() - i4.length()) + (i4.length() - i5.length()) + (i5.length() - i6.length()) + (i6.length() - i7.length()) + (i7.length() - i8.length()) + (i8.length() - i9.length()) + (i9.length() - i10.length()),
{
    t.0.remaining_no_longer(i);
    t.1.remaining_no_longer(i1);
    t.2.remaining_no_longer(i2);
    t.3.remaining_no_longer(i3);
    t.4.remaining_no_longer(i4);
    t.5.remaining_no_longer(i5);
    t.6.remaining_no_longer(i6);
    t.7.remaining_no_longer(i7);
    t.8.remaining_no_longer(i8);
    t.9.remaining_no_longer(i9);
}

/// Order preservation for the 10-parser tuple: position `k` of the
/// product holds a value parser `k` produces when run alone on the
/// cursor left by parser `k - 1`.
pub proof fn lemma_tuple10_order<
    I: InputLength,
    E,
    FnA: Parser<I, E>,
    FnB: Parser<I, E>,
    FnC: Parser<I, E>,
    FnD: Parser<I, E>,
    FnE: Parser<I, E>,
    FnF: Parser<I, E>,
    FnG: Parser<I, E>,
    FnH: Parser<I, E>,
    FnI: Parser<I, E>,
    FnJ: Parser<I, E>,
>(
    t: (FnA, FnB, FnC, FnD, FnE, FnF, FnG, FnH, FnI, FnJ),
    i: I,
    i1: I, i2: I, i3: I, i4: I, i5: I, i6: I, i7: I, i8: I, i9: I,
    o: (FnA::Output, FnB::Output, FnC::Output, FnD::Output, FnE::Output, FnF::Output, FnG::Output, FnH::Output, FnI::Output, FnJ::Output),
)
    requires
        i1 == t.0.remaining(i),
        i2 == t.1.remaining(i1),
        i3 == t.2.remaining(i2),
        i4 == t.3.remaining(i3),
        i5 == t.4.remaining(i4),
        i6 == t.5.remaining(i5),
        i7 == t.6.remaining(i6),
        i8 == t.7.remaining(i7),
        i9 == t.8.remaining(i8),
        t.produces(i, o),
    ensures
        t.0.produces(i, o.0),
        t.1.produces(i1, o.1),
        t.2.produces(i2, o.2),
        t.3.produces(i3, o.3),
        t.4.produces(i4, o.4),
        t.5.produces(i5, o.5),
        t.6.produces(i6, o.6),
        t.7.produces(i7, o.7),
        t.8.produces(i8, o.8),
        t.9.produces(i9, o.9),
{
}

/// Fail-fast for the 10-parser tuple: the first failing component
/// decides the outcome, which is forwarded unchanged; the `parse`
/// contract adds that the components after it are never run.
pub proof fn lemma_tuple10_fail_fast<
    I: InputLength,
    E,
    FnA: Parser<I, E>,
    FnB: Parser<I, E>,
    FnC: Parser<I, E>,
    FnD: Parser<I, E>,
    FnE: Parser<I, E>,
    FnF: Parser<I, E>,
    FnG: Parser<I, E>,
    FnH: Parser<I, E>,
    FnI: Parser<I, E>,
    FnJ: Parser<I, E>,
>(
    t: (FnA, FnB, FnC, FnD, FnE, FnF, FnG, FnH, FnI, FnJ),
    i: I,
    i1: I, i2: I, i3: I, i4: I, i5: I, i6: I, i7: I, i8: I, i9: I,
)
    requires
        i1 == t.0.remaining(i),
        i2 == t.1.remaining(i1),
        i3 == t.2.remaining(i2),
        i4 == t.3.remaining(i3),
        i5 == t.4.remaining(i4),
        i6 == t.5.remaining(i5),
        i7 == t.6.remaining(i6),
        i8 == t.7.remaining(i7),
        i9 == t.8.remaining(i8),
    ensures
        !t.0.succeeds(i) ==> !t.succeeds(i) && t.failure(i) == t.0.failure(i),
        t.0.succeeds(i) && !t.1.succeeds(i1) ==> !t.succeeds(i) && t.failure(i) == t.1.failure(i1),
        t.0.succeeds(i) && t.1.succeeds(i1) && !t.2.succeeds(i2) ==> !t.succeeds(i) && t.failure(i) == t.2.failure(i2),
        t.0.succeeds(i) && t.1.succeeds(i1) && t.2.succeeds(i2) && !t.3.succeeds(i3) ==> !t.succeeds(i) && t.failure(i) == t.3.failure(i3),
        t.0.succeeds(i) && t.1.succeeds(i1) && t.2.succeeds(i2) && t.3.succeeds(i3) && !t.4.succeeds(i4) ==> !t.succeeds(i) && t.failure(i) == t.4.failure(i4),
        t.0.succeeds(i) && t.1.succeeds(i1) && t.2.succeeds(i2) && t.3.succeeds(i3) && t.4.succeeds(i4) && !t.5.succeeds(i5) ==> !t.succeeds(i) && t.failure(i) == t.5.failure(i5),
        t.0.succeeds(i) && t.1.succeeds(i1) && t.2.succeeds(i2) && t.3.succeeds(i3) && t.4.succeeds(i4) && t.5.succeeds(i5) && !t.6.succeeds(i6) ==> !t.succeeds(i) && t.failure(i) == t.6.failure(i6),
        t.0.succeeds(i) && t.1.succeeds(i1) && t.2.succeeds(i2) && t.3.succeeds(i3) && t.4.succeeds(i4) && t.5.succeeds(i5) && t.6.succeeds(i6) && !t.7.succeeds(i7) ==> !t.succeeds(i) && t.failure(i) == t.7.failure(i7),
        t.0.succeeds(i) && t.1.succeeds(i1) && t.2.succeeds(i2) && t.3.succeeds(i3) && t.4.succeeds(i4) && t.5.succeeds(i5) && t.6.succeeds(i6) && t.7.succeeds(i7) && !t.8.succeeds(i8) ==> !t.succeeds(i) && t.failure(i) == t.8.failure(i8),
        t.0.succeeds(i) && t.1.succeeds(i1) && t.2.succeeds(i2) && t.3.succeeds(i3) && t.4.succeeds(i4) && t.5.succeeds(i5) && t.6.succeeds(i6) && t.7.succeeds(i7) && t.8.succeeds(i8) && !t.9.succeeds(i9) ==> !t.succeeds(i) && t.failure(i) == t.9.failure(i9),
{
}

/// Consumption additivity for the 11-parser tuple: a successful run
/// consumes exactly the sum of what the components consume, each on the
/// cursor its predecessor left, and no component gives input back.
pub proof fn lemma_tuple11_consumption<
    I: InputLength,
    E,
    FnA: Parser<I, E>,
    FnB: Parser<I, E>,
    FnC: Parser<I, E>,
    FnD: Parser<I, E>,
    FnE: Parser<I, E>,
    FnF: Parser<I, E>,
    FnG: Parser<I, E>,
    FnH: Parser<I, E>,
    FnI: Parser<I, E>,
    FnJ: Parser<I, E>,
    FnK: Parser<I, E>,
>(
    t: (FnA, FnB, FnC, FnD, FnE, FnF, FnG, FnH, FnI, FnJ, FnK),
    i: I,
    i1: I, i2: I, i3: I, i4: I, i5: I, i6: I, i7: I, i8: I, i9: I, i10: I, i11: I,
)
    requires
        t.succeeds(i),
        i1 == t.0.remaining(i),
        i2 == t.1.remaining(i1),
        i3 == t.2.remaining(i2),
        i4 == t.3.remaining(i3),
        i5 == t.4.remaining(i4),
        i6 == t.5.remaining(i5),
        i7 == t.6.remaining(i6),
        i8 == t.7.remaining(i7),
        i9 == t.8.remaining(i8),
        i10 == t.9.remaining(i9),
        i11 == t.10.remaining(i10),
    ensures
        i11 == t.remaining(i),
        i1.length() <= i.length(),
        i2.length() <= i1.length(),
        i3.length() <= i2.length(),
        i4.length() <= i3.length(),
        i5.length() <= i4.length(),
        i6.length() <= i5.length(),
        i7.length() <= i6.length(),
        i8.length() <= i7.length(),
        i9.length() <= i8.length(),
        i10.length() <= i9.length(),
        i11.length() <= i10.length(),
        i.length() - i11.length() == (i.length() - i1.length()) + (i1.length() - i2.length()) + (i2.length() - i3.length()) + (i3.length() - i4.length()) + (i4.length() - i5.length()) + (i5.length() - i6.length()) + (i6.length() - i7.length()) + (i7.length() - i8.length()) + (i8.length() - i9.length()) + (i9.length() - i10.length()) + (i10.length() - i11.length()),
{
    t.0.remaining_no_longer(i);
    t.1.remaining_no_longer(i1);
    t.2.remaining_no_longer(i2);
    t.3.remaining_no_longer(i3);
    t.4.remaining_no_longer(i4);
    t.5.remaining_no_longer(i5);
    t.6.remaining_no_longer(i6);
    t.7.remaining_no_longer(i7);
    t.8.remaining_no_longer(i8);
    t.9.remaining_no_longer(i9);
    t.10.remaining_no_longer(i10);
}

/// Order preservation for the 11-parser tuple: position `k` of the
/// product holds a value parser `k` produces when run alone on the
/// cursor left by parser `k - 1`.
pub proof fn lemma_tuple11_order<
    I: InputLength,
    E,
    FnA: Parser<I, E>,
    FnB: Parser<I, E>,
    FnC: Parser<I, E>,
    FnD: Parser<I, E>,
    FnE: Parser<I, E>,
    FnF: Parser<I, E>,
    FnG: Parser<I, E>,
    FnH: Parser<I, E>,
    FnI: Parser<I, E>,
    FnJ: Parser<I, E>,
    FnK: Parser<I, E>,
>(
    t: (FnA, FnB, FnC, FnD, FnE, FnF, FnG, FnH, FnI, FnJ, FnK),
    i: I,
    i1: I, i2: I, i3: I, i4: I, i5: I, i6: I, i7: I, i8: I, i9: I, i10: I,
    o: (FnA::Output, FnB::Output, FnC::Output, FnD::Output, FnE::Output, FnF::Output, FnG::Output, FnH::Output, FnI::Output, FnJ::Output, FnK::Output),
)
    requires
        i1 == t.0.remaining(i),
        i2 == t.1.remaining(i1),
        i3 == t.2.remaining(i2),
        i4 == t.3.remaining(i3),
        i5 == t.4.remaining(i4),
        i6 == t.5.remaining(i5),
        i7 == t.6.remaining(i6),
        i8 == t.7.remaining(i7),
        i9 == t.8.remaining(i8),
        i10 == t.9.remaining(i9),
        t.produces(i, o),
    ensures
        t.0.produces(i, o.0),
        t.1.produces(i1, o.1),
        t.2.produces(i2, o.2),
        t.3.produces(i3, o.3),
        t.4.produces(i4, o.4),
        t.5.produces(i5, o.5),
        t.6.produces(i6, o.6),
        t.7.produces(i7, o.7),
        t.8.produces(i8, o.8),
        t.9.produces(i9, o.9),
        t.10.produces(i10, o.10),
{
}

/// Fail-fast for the 11-parser tuple: the first failing component
/// decides the outcome, which is forwarded unchanged; the `parse`
/// contract adds that the components after it are never run.
pub proof fn lemma_tuple11_fail_fast<
    I: InputLength,
    E,
    FnA: Parser<I, E>,
    FnB: Parser<I, E>,
    FnC: Parser<I, E>,
    FnD: Parser<I, E>,
    FnE: Parser<I, E>,
    FnF: Parser<I, E>,
    FnG: Parser<I, E>,
    FnH: Parser<I, E>,
    FnI: Parser<I, E>,
    FnJ: Parser<I, E>,
    FnK: Parser<I, E>,
>(
    t: (FnA, FnB, FnC, FnD, FnE, FnF, FnG, FnH, FnI, FnJ, FnK),
    i: I,
    i1: I, i2: I, i3: I, i4: I, i5: I, i6: I, i7: I, i8: I, i9: I, i10: I,
)
    requires
        i1 == t.0.remaining(i),
        i2 == t.1.remaining(i1),
        i3 == t.2.remaining(i2),
        i4 == t.3.remaining(i3),
        i5 == t.4.remaining(i4),
        i6 == t.5.remaining(i5),
        i7 == t.6.remaining(i6),
        i8 == t.7.remaining(i7),
        i9 == t.8.remaining(i8),
        i10 == t.9.remaining(i9),
    ensures
        !t.0.succeeds(i) ==> !t.succeeds(i) && t.failure(i) == t.0.failure(i),
        t.0.succeeds(i) && !t.1.succeeds(i1) ==> !t.succeeds(i) && t.failure(i) == t.1.failure(i1),
        t.0.succeeds(i) && t.1.succeeds(i1) && !t.2.succeeds(i2) ==> !t.succeeds(i) && t.failure(i) == t.2.failure(i2),
        t.0.succeeds(i) && t.1.succeeds(i1) && t.2.succeeds(i2) && !t.3.succeeds(i3) ==> !t.succeeds(i) && t.failure(i) == t.3.failure(i3),
        t.0.succeeds(i) && t.1.succeeds(i1) && t.2.succeeds(i2) && t.3.succeeds(i3) && !t.4.succeeds(i4) ==> !t.succeeds(i) && t.failure(i) == t.4.failure(i4),
        t.0.succeeds(i) && t.1.succeeds(i1) && t.2.succeeds(i2) && t.3.succeeds(i3) && t.4.succeeds(i4) && !t.5.succeeds(i5) ==> !t.succeeds(i) && t.failure(i) == t.5.failure(i5),
        t.0.succeeds(i) && t.1.succeeds(i1) && t.2.succeeds(i2) && t.3.succeeds(i3) && t.4.succeeds(i4) && t.5.succeeds(i5) && !t.6.succeeds(i6) ==> !t.succeeds(i) && t.failure(i) == t.6.failure(i6),
        t.0.succeeds(i) && t.1.succeeds(i1) && t.2.succeeds(i2) && t.3.succeeds(i3) && t.4.succeeds(i4) && t.5.succeeds(i5) && t.6.succeeds(i6) && !t.7.succeeds(i7) ==> !t.succeeds(i) && t.failure(i) == t.7.failure(i7),
        t.0.succeeds(i) && t.1.succeeds(i1) && t.2.succeeds(i2) && t.3.succeeds(i3) && t.4.succeeds(i4) && t.5.succeeds(i5) && t.6.succeeds(i6) && t.7.succeeds(i7) && !t.8.succeeds(i8) ==> !t.succeeds(i) && t.failure(i) == t.8.failure(i8),
        t.0.succeeds(i) && t.1.succeeds(i1) && t.2.succeeds(i2) && t.3.succeeds(i3) && t.4.succeeds(i4) && t.5.succeeds(i5) && t.6.succeeds(i6) && t.7.succeeds(i7) && t.8.succeeds(i8) && !t.9.succeeds(i9) ==> !t.succeeds(i) && t.failure(i) == t.9.failure(i9),
        t.0.succeeds(i) && t.1.succeeds(i1) && t.2.succeeds(i2) && t.3.succeeds(i3) && t.4.succeeds(i4) && t.5.succeeds(i5) && t.6.succeeds(i6) && t.7.succeeds(i7) && t.8.succeeds(i8) && t.9.succeeds(i9) && !t.10.succeeds(i10) ==> !t.succeeds(i) && t.failure(i) == t.10.failure(i10),
{
}

/// Consumption additivity for the 12-parser tuple: a successful run
/// consumes exactly the sum of what the components consume, each on the
/// cursor its predecessor left, and no component gives input back.
pub proof fn lemma_tuple12_consumption<
    I: InputLength,
    E,
    FnA: Parser<I, E>,
    FnB: Parser<I, E>,
    FnC: Parser<I, E>,
    FnD: Parser<I, E>,
    FnE: Parser<I, E>,
    FnF: Parser<I, E>,
    FnG: Parser<I, E>,
    FnH: Parser<I, E>,
    FnI: Parser<I, E>,
    FnJ: Parser<I, E>,
    FnK: Parser<I, E>,
    FnL: Parser<I, E>,
>(
    t: (FnA, FnB, FnC, FnD, FnE, FnF, FnG, FnH, FnI, FnJ, FnK, FnL),
    i: I,
    i1: I, i2: I, i3: I, i4: I, i5: I, i6: I, i7: I, i8: I, i9: I, i10: I, i11: I, i12: I,
)
    requires
        t.succeeds(i),
        i1 == t.0.remaining(i),
        i2 == t.1.remaining(i1),
        i3 == t.2.remaining(i2),
        i4 == t.3.remaining(i3),
        i5 == t.4.remaining(i4),
        i6 == t.5.remaining(i5),
        i7 == t.6.remaining(i6),
        i8 == t.7.remaining(i7),
        i9 == t.8.remaining(i8),
        i10 == t.9.remaining(i9),
        i11 == t.10.remaining(i10),
        i12 == t.11.remaining(i11),
    ensures
        i12 == t.remaining(i),
        i1.length() <= i.length(),
        i2.length() <= i1.length(),
        i3.length() <= i2.length(),
        i4.length() <= i3.length(),
        i5.length() <= i4.length(),
        i6.length() <= i5.length(),
        i7.length() <= i6.length(),
        i8.length() <= i7.length(),
        i9.length() <= i8.length(),
        i10.length() <= i9.length(),
        i11.length() <= i10.length(),
        i12.length() <= i11.length(),
        i.length() - i12.length() == (i.length() - i1.length()) + (i1.length() - i2.length()) + (i2.length() - i3.length()) + (i3.length() - i4.length()) + (i4.length() - i5.length()) + (i5.length() - i6.length()) + (i6.length() - i7.length()) + (i7.length() - i8.length()) + (i8.length() - i9.length()) + (i9.length() - i10.length()) + (i10.length() - i11.length()) + (i11.length() - i12.length()),
{
    t.0.remaining_no_longer(i);
    t.1.remaining_no_longer(i1);
    t.2.remaining_no_longer(i2);
    t.3.remaining_no_longer(i3);
    t.4.remaining_no_longer(i4);
    t.5.remaining_no_longer(i5);
    t.6.remaining_no_longer(i6);
    t.7.remaining_no_longer(i7);
    t.8.remaining_no_longer(i8);
    t.9.remaining_no_longer(i9);
    t.10.remaining_no_longer(i10);
    t.11.remaining_no_longer(i11);
}

/// Order preservation for the 12-parser tuple: position `k` of the
/// product holds a value parser `k` produces when run alone on the
/// cursor left by parser `k - 1`.
pub proof fn lemma_tuple12_order<
    I: InputLength,
    E,
    FnA: Parser<I, E>,
    FnB: Parser<I, E>,
    FnC: Parser<I, E>,
    FnD: Parser<I, E>,
    FnE: Parser<I, E>,
    FnF: Parser<I, E>,
    FnG: Parser<I, E>,
    FnH: Parser<I, E>,
    FnI: Parser<I, E>,
    FnJ: Parser<I, E>,
    FnK: Parser<I, E>,
    FnL: Parser<I, E>,
>(
    t: (FnA, FnB, FnC, FnD, FnE, FnF, FnG, FnH, FnI, FnJ, FnK, FnL),
    i: I,
    i1: I, i2: I, i3: I, i4: I, i5: I, i6: I, i7: I, i8: I, i9: I, i10: I, i11: I,
    o: (FnA::Output, FnB::Output, FnC::Output, FnD::Output, FnE::Output, FnF::Output, FnG::Output, FnH::Output, FnI::Output, FnJ::Output, FnK::Output, FnL::Output),
)
    requires
        i1 == t.0.remaining(i),
        i2 == t.1.remaining(i1),
        i3 == t.2.remaining(i2),
        i4 == t.3.remaining(i3),
        i5 == t.4.remaining(i4),
        i6 == t.5.remaining(i5),
        i7 == t.6.remaining(i6),
        i8 == t.7.remaining(i7),
        i9 == t.8.remaining(i8),
        i10 == t.9.remaining(i9),
        i11 == t.10.remaining(i10),
        t.produces(i, o),
    ensures
        t.0.produces(i, o.0),
        t.1.produces(i1, o.1),
        t.2.produces(i2, o.2),
        t.3.produces(i3, o.3),
        t.4.produces(i4, o.4),
        t.5.produces(i5, o.5),
        t.6.produces(i6, o.6),
        t.7.produces(i7, o.7),
        t.8.produces(i8, o.8),
        t.9.produces(i9, o.9),
        t.10.produces(i10, o.10),
        t.11.produces(i11, o.11),
{
}

/// Fail-fast for the 12-parser tuple: the first failing component
/// decides the outcome, which is forwarded unchanged; the `parse`
/// contract adds that the components after it are never run.
pub proof fn lemma_tuple12_fail_fast<
    I: InputLength,
    E,
    FnA: Parser<I, E>,
    FnB: Parser<I, E>,
    FnC: Parser<I, E>,
    FnD: Parser<I, E>,
    FnE: Parser<I, E>,
    FnF: Parser<I, E>,
    FnG: Parser<I, E>,
    FnH: Parser<I, E>,
    FnI: Parser<I, E>,
    FnJ: Parser<I, E>,
    FnK: Parser<I, E>,
    FnL: Parser<I, E>,
>(
    t: (FnA, FnB, FnC, FnD, FnE, FnF, FnG, FnH, FnI, FnJ, FnK, FnL),
    i: I,
    i1: I, i2: I, i3: I, i4: I, i5: I, i6: I, i7: I, i8: I, i9: I, i10: I, i11: I,
)
    requires
        i1 == t.0.remaining(i),
        i2 == t.1.remaining(i1),
        i3 == t.2.remaining(i2),
        i4 == t.3.remaining(i3),
        i5 == t.4.remaining(i4),
        i6 == t.5.remaining(i5),
        i7 == t.6.remaining(i6),
        i8 == t.7.remaining(i7),
        i9 == t.8.remaining(i8),
        i10 == t.9.remaining(i9),
        i11 == t.10.remaining(i10),
    ensures
        !t.0.succeeds(i) ==> !t.succeeds(i) && t.failure(i) == t.0.failure(i),
        t.0.succeeds(i) && !t.1.succeeds(i1) ==> !t.succeeds(i) && t.failure(i) == t.1.failure(i1),
        t.0.succeeds(i) && t.1.succeeds(i1) && !t.2.succeeds(i2) ==> !t.succeeds(i) && t.failure(i) == t.2.failure(i2),
        t.0.succeeds(i) && t.1.succeeds(i1) && t.2.succeeds(i2) && !t.3.succeeds(i3) ==> !t.succeeds(i) && t.failure(i) == t.3.failure(i3),
        t.0.succeeds(i) && t.1.succeeds(i1) && t.2.succeeds(i2) && t.3.succeeds(i3) && !t.4.succeeds(i4) ==> !t.succeeds(i) && t.failure(i) == t.4.failure(i4),
        t.0.succeeds(i) && t.1.succeeds(i1) && t.2.succeeds(i2) && t.3.succeeds(i3) && t.4.succeeds(i4) && !t.5.succeeds(i5) ==> !t.succeeds(i) && t.failure(i) == t.5.failure(i5),
        t.0.succeeds(i) && t.1.succeeds(i1) && t.2.succeeds(i2) && t.3.succeeds(i3) && t.4.succeeds(i4) && t.5.succeeds(i5) && !t.6.succeeds(i6) ==> !t.succeeds(i) && t.failure(i) == t.6.failure(i6),
        t.0.succeeds(i) && t.1.succeeds(i1) && t.2.succeeds(i2) && t.3.succeeds(i3) && t.4.succeeds(i4) && t.5.succeeds(i5) && t.6.succeeds(i6) && !t.7.succeeds(i7) ==> !t.succeeds(i) && t.failure(i) == t.7.failure(i7),
        t.0.succeeds(i) && t.1.succeeds(i1) && t.2.succeeds(i2) && t.3.succeeds(i3) && t.4.succeeds(i4) && t.5.succeeds(i5) && t.6.succeeds(i6) && t.7.succeeds(i7) && !t.8.succeeds(i8) ==> !t.succeeds(i) && t.failure(i) == t.8.failure(i8),
        t.0.succeeds(i) && t.1.succeeds(i1) && t.2.succeeds(i2) && t.3.succeeds(i3) && t.4.succeeds(i4) && t.5.succeeds(i5) && t.6.succeeds(i6) && t.7.succeeds(i7) && t.8.succeeds(i8) && !t.9.succeeds(i9) ==> !t.succeeds(i) && t.failure(i) == t.9.failure(i9),
        t.0.succeeds(i) && t.1.succeeds(i1) && t.2.succeeds(i2) && t.3.succeeds(i3) && t.4.succeeds(i4) && t.5.succeeds(i5) && t.6.succeeds(i6) && t.7.succeeds(i7) && t.8.succeeds(i8) && t.9.succeeds(i9) && !t.10.succeeds(i10) ==> !t.succeeds(i) && t.failure(i) == t.10.failure(i10),
        t.0.succeeds(i) && t.1.succeeds(i1) && t.2.succeeds(i2) && t.3.succeeds(i3) && t.4.succeeds(i4) && t.5.succeeds(i5) && t.6.succeeds(i6) && t.7.succeeds(i7) && t.8.succeeds(i8) && t.9.succeeds(i9) && t.10.succeeds(i10) && !t.11.succeeds(i11) ==> !t.succeeds(i) && t.failure(i) == t.11.failure(i11),
{
}

/// Consumption additivity for the 13-parser tuple: a successful run
/// consumes exactly the sum of what the components consume, each on the
/// cursor its predecessor left, and no component gives input back.
pub proof fn lemma_tuple13_consumption<
    I: InputLength,
    E,
    FnA: Parser<I, E>,
    FnB: Parser<I, E>,
    FnC: Parser<I, E>,
    FnD: Parser<I, E>,
    FnE: Parser<I, E>,
    FnF: Parser<I, E>,
    FnG: Parser<I, E>,
    FnH: Parser<I, E>,
    FnI: Parser<I, E>,
    FnJ: Parser<I, E>,
    FnK: Parser<I, E>,
    FnL: Parser<I, E>,
    FnM: Parser<I, E>,
>(
    t: (FnA, FnB, FnC, FnD, FnE, FnF, FnG, FnH, FnI, FnJ, FnK, FnL, FnM),
    i: I,
    i1: I, i2: I, i3: I, i4: I, i5: I, i6: I, i7: I, i8: I, i9: I, i10: I, i11: I, i12: I, i13: I,
)
    requires
        t.succeeds(i),
        i1 == t.0.remaining(i),
        i2 == t.1.remaining(i1),
        i3 == t.2.remaining(i2),
        i4 == t.3.remaining(i3),
        i5 == t.4.remaining(i4),
        i6 == t.5.remaining(i5),
        i7 == t.6.remaining(i6),
        i8 == t.7.remaining(i7),
        i9 == t.8.remaining(i8),
        i10 == t.9.remaining(i9),
        i11 == t.10.remaining(i10),
        i12 == t.11.remaining(i11),
        i13 == t.12.remaining(i12),
    ensures
        i13 == t.remaining(i),
        i1.length() <= i.length(),
        i2.length() <= i1.length(),
        i3.length() <= i2.length(),
        i4.length() <= i3.length(),
        i5.length() <= i4.length(),
        i6.length() <= i5.length(),
        i7.length() <= i6.length(),
        i8.length() <= i7.length(),
        i9.length() <= i8.length(),
        i10.length() <= i9.length(),
        i11.length() <= i10.length(),
        i12.length() <= i11.length(),
        i13.length() <= i12.length(),
        i.length() - i13.length() == (i.length() - i1.length()) + (i1.length() - i2.length()) + (i2.length() - i3.length()) + (i3.length() - i4.length()) + (i4.length() - i5.length()) + (i5.length() - i6.length()) + (i6.length() - i7.length()) + (i7.length() - i8.length()) + (i8.length() - i9.length()) + (i9.length() - i10.length()) + (i10.length() - i11.length()) + (i11.length() - i12.length()) + (i12.length() - i13.length()),
{
    t.0.remaining_no_longer(i);
    t.1.remaining_no_longer(i1);
    t.2.remaining_no_longer(i2);
    t.3.remaining_no_longer(i3);
    t.4.remaining_no_longer(i4);
    t.5.remaining_no_longer(i5);
    t.6.remaining_no_longer(i6);
    t.7.remaining_no_longer(i7);
    t.8.remaining_no_longer(i8);
    t.9.remaining_no_longer(i9);
    t.10.remaining_no_longer(i10);
    t.11.remaining_no_longer(i11);
    t.12.remaining_no_longer(i12);
}

/// Order preservation for the 13-parser tuple: position `k` of the
/// product holds a value parser `k` produces when run alone on the
/// cursor left by parser `k - 1`.
pub proof fn lemma_tuple13_order<
    I: InputLength,
    E,
    FnA: Parser<I, E>,
    FnB: Parser<I, E>,
    FnC: Parser<I, E>,
    FnD: Parser<I, E>,
    FnE: Parser<I, E>,
    FnF: Parser<I, E>,
    FnG: Parser<I, E>,
    FnH: Parser<I, E>,
    FnI: Parser<I, E>,
    FnJ: Parser<I, E>,
    FnK: Parser<I, E>,
    FnL: Parser<I, E>,
    FnM: Parser<I, E>,
>(
    t: (FnA, FnB, FnC, FnD, FnE, FnF, FnG, FnH, FnI, FnJ, FnK, FnL, FnM),
    i: I,
    i1: I, i2: I, i3: I, i4: I, i5: I, i6: I, i7: I, i8: I, i9: I, i10: I, i11: I, i12: I,
    o: (FnA::Output, FnB::Output, FnC::Output, FnD::Output, FnE::Output, FnF::Output, FnG::Output, FnH::Output, FnI::Output, FnJ::Output, FnK::Output, FnL::Output, FnM::Output),
)
    requires
        i1 == t.0.remaining(i),
        i2 == t.1.remaining(i1),
        i3 == t.2.remaining(i2),
        i4 == t.3.remaining(i3),
        i5 == t.4.remaining(i4),
        i6 == t.5.remaining(i5),
        i7 == t.6.remaining(i6),
        i8 == t.7.remaining(i7),
        i9 == t.8.remaining(i8),
        i10 == t.9.remaining(i9),
        i11 == t.10.remaining(i10),
        i12 == t.11.remaining(i11),
        t.produces(i, o),
    ensures
        t.0.produces(i, o.0),
        t.1.produces(i1, o.1),
        t.2.produces(i2, o.2),
        t.3.produces(i3, o.3),
        t.4.produces(i4, o.4),
        t.5.produces(i5, o.5),
        t.6.produces(i6, o.6),
        t.7.produces(i7, o.7),
        t.8.produces(i8, o.8),
        t.9.produces(i9, o.9),
        t.10.produces(i10, o.10),
        t.11.produces(i11, o.11),
        t.12.produces(i12, o.12),
{
}

/// Fail-fast for the 13-parser tuple: the first failing component
/// decides the outcome, which is forwarded unchanged; the `parse`
/// contract adds that the components after it are never run.
pub proof fn lemma_tuple13_fail_fast<
    I: InputLength,
    E,
    FnA: Parser<I, E>,
    FnB: Parser<I, E>,
    FnC: Parser<I, E>,
    FnD: Parser<I, E>,
    FnE: Parser<I, E>,
    FnF: Parser<I, E>,
    FnG: Parser<I, E>,
    FnH: Parser<I, E>,
    FnI: Parser<I, E>,
    FnJ: Parser<I, E>,
    FnK: Parser<I, E>,
    FnL: Parser<I, E>,
    FnM: Parser<I, E>,
>(
    t: (FnA, FnB, FnC, FnD, FnE, FnF, FnG, FnH, FnI, FnJ, FnK, FnL, FnM),
    i: I,
    i1: I, i2: I, i3: I, i4: I, i5: I, i6: I, i7: I, i8: I, i9: I, i10: I, i11: I, i12: I,
)
    requires
        i1 == t.0.remaining(i),
        i2 == t.1.remaining(i1),
        i3 == t.2.remaining(i2),
        i4 == t.3.remaining(i3),
        i5 == t.4.remaining(i4),
        i6 == t.5.remaining(i5),
        i7 == t.6.remaining(i6),
        i8 == t.7.remaining(i7),
        i9 == t.8.remaining(i8),
        i10 == t.9.remaining(i9),
        i11 == t.10.remaining(i10),
        i12 == t.11.remaining(i11),
    ensures
        !t.0.succeeds(i) ==> !t.succeeds(i) && t.failure(i) == t.0.failure(i),
        t.0.succeeds(i) && !t.1.succeeds(i1) ==> !t.succeeds(i) && t.failure(i) == t.1.failure(i1),
        t.0.succeeds(i) && t.1.succeeds(i1) && !t.2.succeeds(i2) ==> !t.succeeds(i) && t.failure(i) == t.2.failure(i2),
        t.0.succeeds(i) && t.1.succeeds(i1) && t.2.succeeds(i2) && !t.3.succeeds(i3) ==> !t.succeeds(i) && t.failure(i) == t.3.failure(i3),
        t.0.succeeds(i) && t.1.succeeds(i1) && t.2.succeeds(i2) && t.3.succeeds(i3) && !t.4.succeeds(i4) ==> !t.succeeds(i) && t.failure(i) == t.4.failure(i4),
        t.0.succeeds(i) && t.1.succeeds(i1) && t.2.succeeds(i2) && t.3.succeeds(i3) && t.4.succeeds(i4) && !t.5.succeeds(i5) ==> !t.succeeds(i) && t.failure(i) == t.5.failure(i5),
        t.0.succeeds(i) && t.1.succeeds(i1) && t.2.succeeds(i2) && t.3.succeeds(i3) && t.4.succeeds(i4) && t.5.succeeds(i5) && !t.6.succeeds(i6) ==> !t.succeeds(i) && t.failure(i) == t.6.failure(i6),
        t.0.succeeds(i) && t.1.succeeds(i1) && t.2.succeeds(i2) && t.3.succeeds(i3) && t.4.succeeds(i4) && t.5.succeeds(i5) && t.6.succeeds(i6) && !t.7.succeeds(i7) ==> !t.succeeds(i) && t.failure(i) == t.7.failure(i7),
        t.0.succeeds(i) && t.1.succeeds(i1) && t.2.succeeds(i2) && t.3.succeeds(i3) && t.4.succeeds(i4) && t.5.succeeds(i5) && t.6.succeeds(i6) && t.7.succeeds(i7) && !t.8.succeeds(i8) ==> !t.succeeds(i) && t.failure(i) == t.8.failure(i8),
        t.0.succeeds(i) && t.1.succeeds(i1) && t.2.succeeds(i2) && t.3.succeeds(i3) && t.4.succeeds(i4) && t.5.succeeds(i5) && t.6.succeeds(i6) && t.7.succeeds(i7) && t.8.succeeds(i8) && !t.9.succeeds(i9) ==> !t.succeeds(i) && t.failure(i) == t.9.failure(i9),
        t.0.succeeds(i) && t.1.succeeds(i1) && t.2.succeeds(i2) && t.3.succeeds(i3) && t.4.succeeds(i4) && t.5.succeeds(i5) && t.6.succeeds(i6) && t.7.succeeds(i7) && t.8.succeeds(i8) && t.9.succeeds(i9) && !t.10.succeeds(i10) ==> !t.succeeds(i) && t.failure(i) == t.10.failure(i10),
        t.0.succeeds(i) && t.1.succeeds(i1) && t.2.succeeds(i2) && t.3.succeeds(i3) && t.4.succeeds(i4) && t.5.succeeds(i5) && t.6.succeeds(i6) && t.7.succeeds(i7) && t.8.succeeds(i8) && t.9.succeeds(i9) && t.10.succeeds(i10) && !t.11.succeeds(i11) ==> !t.succeeds(i) && t.failure(i) == t.11.failure(i11),
        t.0.succeeds(i) && t.1.succeeds(i1) && t.2.succeeds(i2) && t.3.succeeds(i3) && t.4.succeeds(i4) && t.5.succeeds(i5) && t.6.succeeds(i6) && t.7.succeeds(i7) && t.8.succeeds(i8) && t.9.succeeds(i9) && t.10.succeeds(i10) && t.11.succeeds(i11) && !t.12.succeeds(i12) ==> !t.succeeds(i) && t.failure(i) == t.12.failure(i12),
{
}

/// Consumption additivity for the 14-parser tuple: a successful run
/// consumes exactly the sum of what the components consume, each on the
/// cursor its predecessor left, and no component gives input back.
pub proof fn lemma_tuple14_consumption<
    I: InputLength,
    E,
    FnA: Parser<I, E>,
    FnB: Parser<I, E>,
    FnC: Parser<I, E>,
    FnD: Parser<I, E>,
    FnE: Parser<I, E>,
    FnF: Parser<I, E>,
    FnG: Parser<I, E>,
    FnH: Parser<I, E>,
    FnI: Parser<I, E>,
    FnJ: Parser<I, E>,
    FnK: Parser<I, E>,
    FnL: Parser<I, E>,
    FnM: Parser<I, E>,
    FnN: Parser<I, E>,
>(
    t: (FnA, FnB, FnC, FnD, FnE, FnF, FnG, FnH, FnI, FnJ, FnK, FnL, FnM, FnN),
    i: I,
    i1: I, i2: I, i3: I, i4: I, i5: I, i6: I, i7: I, i8: I, i9: I, i10: I, i11: I, i12: I, i13: I, i14: I,
)
    requires
        t.succeeds(i),
        i1 == t.0.remaining(i),
        i2 == t.1.remaining(i1),
        i3 == t.2.remaining(i2),
        i4 == t.3.remaining(i3),
        i5 == t.4.remaining(i4),
        i6 == t.5.remaining(i5),
        i7 == t.6.remaining(i6),
        i8 == t.7.remaining(i7),
        i9 == t.8.remaining(i8),
        i10 == t.9.remaining(i9),
        i11 == t.10.remaining(i10),
        i12 == t.11.remaining(i11),
        i13 == t.12.remaining(i12),
        i14 == t.13.remaining(i13),
    ensures
        i14 == t.remaining(i),
        i1.length() <= i.length(),
        i2.length() <= i1.length(),
        i3.length() <= i2.length(),
        i4.length() <= i3.length(),
        i5.length() <= i4.length(),
        i6.length() <= i5.length(),
        i7.length() <= i6.length(),
        i8.length() <= i7.length(),
        i9.length() <= i8.length(),
        i10.length() <= i9.length(),
        i11.length() <= i10.length(),
        i12.length() <= i11.length(),
        i13.length() <= i12.length(),
        i14.length() <= i13.length(),
        i.length() - i14.length() == (i.length() - i1.length()) + (i1.length() - i2.length()) + (i2.length() - i3.length()) + (i3.length() - i4.length()) + (i4.length() - i5.length()) + (i5.length() - i6.length()) + (i6.length() - i7.length()) + (i7.length() - i8.length()) + (i8.length() - i9.length()) + (i9.length() - i10.length()) + (i10.length() - i11.length()) + (i11.length() - i12.length()) + (i12.length() - i13.length()) + (i13.length() - i14.length()),
{
    t.0.remaining_no_longer(i);
    t.1.remaining_no_longer(i1);
    t.2.remaining_no_longer(i2);
    t.3.remaining_no_longer(i3);
    t.4.remaining_no_longer(i4);
    t.5.remaining_no_longer(i5);
    t.6.remaining_no_longer(i6);
    t.7.remaining_no_longer(i7);
    t.8.remaining_no_longer(i8);
    t.9.remaining_no_longer(i9);
    t.10.remaining_no_longer(i10);
    t.11.remaining_no_longer(i11);
    t.12.remaining_no_longer(i12);
    t.13.remaining_no_longer(i13);
}

/// Order preservation for the 14-parser tuple: position `k` of the
/// product holds a value parser `k` produces when run alone on the
/// cursor left by parser `k - 1`.
pub proof fn lemma_tuple14_order<
    I: InputLength,
    E,
    FnA: Parser<I, E>,
    FnB: Parser<I, E>,
    FnC: Parser<I, E>,
    FnD: Parser<I, E>,
    FnE: Parser<I, E>,
    FnF: Parser<I, E>,
    FnG: Parser<I, E>,
    FnH: Parser<I, E>,
    FnI: Parser<I, E>,
    FnJ: Parser<I, E>,
    FnK: Parser<I, E>,
    FnL: Parser<I, E>,
    FnM: Parser<I, E>,
    FnN: Parser<I, E>,
>(
    t: (FnA, FnB, FnC, FnD, FnE, FnF, FnG, FnH, FnI, FnJ, FnK, FnL, FnM, FnN),
    i: I,
    i1: I, i2: I, i3: I, i4: I, i5: I, i6: I, i7: I, i8: I, i9: I, i10: I, i11: I, i12: I, i13: I,
    o: (FnA::Output, FnB::Output, FnC::Output, FnD::Output, FnE::Output, FnF::Output, FnG::Output, FnH::Output, FnI::Output, FnJ::Output, FnK::Output, FnL::Output, FnM::Output, FnN::Output),
)
    requires
        i1 == t.0.remaining(i),
        i2 == t.1.remaining(i1),
        i3 == t.2.remaining(i2),
        i4 == t.3.remaining(i3),
        i5 == t.4.remaining(i4),
        i6 == t.5.remaining(i5),
        i7 == t.6.remaining(i6),
        i8 == t.7.remaining(i7),
        i9 == t.8.remaining(i8),
        i10 == t.9.remaining(i9),
        i11 == t.10.remaining(i10),
        i12 == t.11.remaining(i11),
        i13 == t.12.remaining(i12),
        t.produces(i, o),
    ensures
        t.0.produces(i, o.0),
        t.1.produces(i1, o.1),
        t.2.produces(i2, o.2),
        t.3.produces(i3, o.3),
        t.4.produces(i4, o.4),
        t.5.produces(i5, o.5),
        t.6.produces(i6, o.6),
        t.7.produces(i7, o.7),
        t.8.produces(i8, o.8),
        t.9.produces(i9, o.9),
        t.10.produces(i10, o.10),
        t.11.produces(i11, o.11),
        t.12.produces(i12, o.12),
        t.13.produces(i13, o.13),
{
}

/// Fail-fast for the 14-parser tuple: the first failing component
/// decides the outcome, which is forwarded unchanged; the `parse`
/// contract adds that the components after it are never run.
pub proof fn lemma_tuple14_fail_fast<
    I: InputLength,
    E,
    FnA: Parser<I, E>,
    FnB: Parser<I, E>,
    FnC: Parser<I, E>,
    FnD: Parser<I, E>,
    FnE: Parser<I, E>,
    FnF: Parser<I, E>,
    FnG: Parser<I, E>,
    FnH: Parser<I, E>,
    FnI: Parser<I, E>,
    FnJ: Parser<I, E>,
    FnK: Parser<I, E>,
    FnL: Parser<I, E>,
    FnM: Parser<I, E>,
    FnN: Parser<I, E>,
>(
    t: (FnA, FnB, FnC, FnD, FnE, FnF, FnG, FnH, FnI, FnJ, FnK, FnL, FnM, FnN),
    i: I,
    i1: I, i2: I, i3: I, i4: I, i5: I, i6: I, i7: I, i8: I, i9: I, i10: I, i11: I, i12: I, i13: I,
)
    requires
        i1 == t.0.remaining(i),
        i2 == t.1.remaining(i1),
        i3 == t.2.remaining(i2),
        i4 == t.3.remaining(i3),
        i5 == t.4.remaining(i4),
        i6 == t.5.remaining(i5),
        i7 == t.6.remaining(i6),
        i8 == t.7.remaining(i7),
        i9 == t.8.remaining(i8),
        i10 == t.9.remaining(i9),
        i11 == t.10.remaining(i10),
        i12 == t.11.remaining(i11),
        i13 == t.12.remaining(i12),
    ensures
        !t.0.succeeds(i) ==> !t.succeeds(i) && t.failure(i) == t.0.failure(i),
        t.0.succeeds(i) && !t.1.succeeds(i1) ==> !t.succeeds(i) && t.failure(i) == t.1.failure(i1),
        t.0.succeeds(i) && t.1.succeeds(i1) && !t.2.succeeds(i2) ==> !t.succeeds(i) && t.failure(i) == t.2.failure(i2),
        t.0.succeeds(i) && t.1.succeeds(i1) && t.2.succeeds(i2) && !t.3.succeeds(i3) ==> !t.succeeds(i) && t.failure(i) == t.3.failure(i3),
        t.0.succeeds(i) && t.1.succeeds(i1) && t.2.succeeds(i2) && t.3.succeeds(i3) && !t.4.succeeds(i4) ==> !t.succeeds(i) && t.failure(i) == t.4.failure(i4),
        t.0.succeeds(i) && t.1.succeeds(i1) && t.2.succeeds(i2) && t.3.succeeds(i3) && t.4.succeeds(i4) && !t.5.succeeds(i5) ==> !t.succeeds(i) && t.failure(i) == t.5.failure(i5),
        t.0.succeeds(i) && t.1.succeeds(i1) && t.2.succeeds(i2) && t.3.succeeds(i3) && t.4.succeeds(i4) && t.5.succeeds(i5) && !t.6.succeeds(i6) ==> !t.succeeds(i) && t.failure(i) == t.6.failure(i6),
        t.0.succeeds(i) && t.1.succeeds(i1) && t.2.succeeds(i2) && t.3.succeeds(i3) && t.4.succeeds(i4) && t.5.succeeds(i5) && t.6.succeeds(i6) && !t.7.succeeds(i7) ==> !t.succeeds(i) && t.failure(i) == t.7.failure(i7),
        t.0.succeeds(i) && t.1.succeeds(i1) && t.2.succeeds(i2) && t.3.succeeds(i3) && t.4.succeeds(i4) && t.5.succeeds(i5) && t.6.succeeds(i6) && t.7.succeeds(i7) && !t.8.succeeds(i8) ==> !t.succeeds(i) && t.failure(i) == t.8.failure(i8),
        t.0.succeeds(i) && t.1.succeeds(i1) && t.2.succeeds(i2) && t.3.succeeds(i3) && t.4.succeeds(i4) && t.5.succeeds(i5) && t.6.succeeds(i6) && t.7.succeeds(i7) && t.8.succeeds(i8) && !t.9.succeeds(i9) ==> !t.succeeds(i) && t.failure(i) == t.9.failure(i9),
        t.0.succeeds(i) && t.1.succeeds(i1) && t.2.succeeds(i2) && t.3.succeeds(i3) && t.4.succeeds(i4) && t.5.succeeds(i5) && t.6.succeeds(i6) && t.7.succeeds(i7) && t.8.succeeds(i8) && t.9.succeeds(i9) && !t.10.succeeds(i10) ==> !t.succeeds(i) && t.failure(i) == t.10.failure(i10),
        t.0.succeeds(i) && t.1.succeeds(i1) && t.2.succeeds(i2) && t.3.succeeds(i3) && t.4.succeeds(i4) && t.5.succeeds(i5) && t.6.succeeds(i6) && t.7.succeeds(i7) && t.8.succeeds(i8) && t.9.succeeds(i9) && t.10.succeeds(i10) && !t.11.succeeds(i11) ==> !t.succeeds(i) && t.failure(i) == t.11.failure(i11),
        t.0.succeeds(i) && t.1.succeeds(i1) && t.2.succeeds(i2) && t.3.succeeds(i3) && t.4.succeeds(i4) && t.5.succeeds(i5) && t.6.succeeds(i6) && t.7.succeeds(i7) && t.8.succeeds(i8) && t.9.succeeds(i9) && t.10.succeeds(i10) && t.11.succeeds(i11) && !t.12.succeeds(i12) ==> !t.succeeds(i) && t.failure(i) == t.12.failure(i12),
        t.0.succeeds(i) && t.1.succeeds(i1) && t.2.succeeds(i2) && t.3.succeeds(i3) && t.4.succeeds(i4) && t.5.succeeds(i5) && t.6.succeeds(i6) && t.7.succeeds(i7) && t.8.succeeds(i8) && t.9.succeeds(i9) && t.10.succeeds(i10) && t.11.succeeds(i11) && t.12.succeeds(i12) && !t.13.succeeds(i13) ==> !t.succeeds(i) && t.failure(i) == t.13.failure(i13),
{
}

/// Consumption additivity for the 15-parser tuple: a successful run
/// consumes exactly the sum of what the components consume, each on the
/// cursor its predecessor left, and no component gives input back.
pub proof fn lemma_tuple15_consumption<
    I: InputLength,
    E,
    FnA: Parser<I, E>,
    FnB: Parser<I, E>,
    FnC: Parser<I, E>,
    FnD: Parser<I, E>,
    FnE: Parser<I, E>,
    FnF: Parser<I, E>,
    FnG: Parser<I, E>,
    FnH: Parser<I, E>,
    FnI: Parser<I, E>,
    FnJ: Parser<I, E>,
    FnK: Parser<I, E>,
    FnL: Parser<I, E>,
    FnM: Parser<I, E>,
    FnN: Parser<I, E>,
    FnO: Parser<I, E>,
>(
    t: (FnA, FnB, FnC, FnD, FnE, FnF, FnG, FnH, FnI, FnJ, FnK, FnL, FnM, FnN, FnO),
    i: I,
    i1: I, i2: I, i3: I, i4: I, i5: I, i6: I, i7: I, i8: I, i9: I, i10: I, i11: I, i12: I, i13: I, i14: I, i15: I,
)
    requires
        t.succeeds(i),
        i1 == t.0.remaining(i),
        i2 == t.1.remaining(i1),
        i3 == t.2.remaining(i2),
        i4 == t.3.remaining(i3),
        i5 == t.4.remaining(i4),
        i6 == t.5.remaining(i5),
        i7 == t.6.remaining(i6),
        i8 == t.7.remaining(i7),
        i9 == t.8.remaining(i8),
        i10 == t.9.remaining(i9),
        i11 == t.10.remaining(i10),
        i12 == t.11.remaining(i11),
        i13 == t.12.remaining(i12),
        i14 == t.13.remaining(i13),
        i15 == t.14.remaining(i14),
    ensures
        i15 == t.remaining(i),
        i1.length() <= i.length(),
        i2.length() <= i1.length(),
        i3.length() <= i2.length(),
        i4.length() <= i3.length(),
        i5.length() <= i4.length(),
        i6.length() <= i5.length(),
        i7.length() <= i6.length(),
        i8.length() <= i7.length(),
        i9.length() <= i8.length(),
        i10.length() <= i9.length(),
        i11.length() <= i10.length(),
        i12.length() <= i11.length(),
        i13.length() <= i12.length(),
        i14.length() <= i13.length(),
        i15.length() <= i14.length(),
        i.length() - i15.length() == (i.length() - i1.length()) + (i1.length() - i2.length()) + (i2.length() - i3.length()) + (i3.length() - i4.length()) + (i4.length() - i5.length()) + (i5.length() - i6.length()) + (i6.length() - i7.length()) + (i7.length() - i8.length()) + (i8.length() - i9.length()) + (i9.length() - i10.length()) + (i10.length() - i11.length()) + (i11.length() - i12.length()) + (i12.length() - i13.length()) + (i13.length() - i14.length()) + (i14.length() - i15.length()),
{
    t.0.remaining_no_longer(i);
    t.1.remaining_no_longer(i1);
    t.2.remaining_no_longer(i2);
    t.3.remaining_no_longer(i3);
    t.4.remaining_no_longer(i4);
    t.5.remaining_no_longer(i5);
    t.6.remaining_no_longer(i6);
    t.7.remaining_no_longer(i7);
    t.8.remaining_no_longer(i8);
    t.9.remaining_no_longer(i9);
    t.10.remaining_no_longer(i10);
    t.11.remaining_no_longer(i11);
    t.12.remaining_no_longer(i12);
    t.13.remaining_no_longer(i13);
    t.14.remaining_no_longer(i14);
}

/// Order preservation for the 15-parser tuple: position `k` of the
/// product holds a value parser `k` produces when run alone on the
/// cursor left by parser `k - 1`.
pub proof fn lemma_tuple15_order<
    I: InputLength,
    E,
    FnA: Parser<I, E>,
    FnB: Parser<I, E>,
    FnC: Parser<I, E>,
    FnD: Parser<I, E>,
    FnE: Parser<I, E>,
    FnF: Parser<I, E>,
    FnG: Parser<I, E>,
    FnH: Parser<I, E>,
    FnI: Parser<I, E>,
    FnJ: Parser<I, E>,
    FnK: Parser<I, E>,
    FnL: Parser<I, E>,
    FnM: Parser<I, E>,
    FnN: Parser<I, E>,
    FnO: Parser<I, E>,
>(
    t: (FnA, FnB, FnC, FnD, FnE, FnF, FnG, FnH, FnI, FnJ, FnK, FnL, FnM, FnN, FnO),
    i: I,
    i1: I, i2: I, i3: I, i4: I, i5: I, i6: I, i7: I, i8: I, i9: I, i10: I, i11: I, i12: I, i13: I, i14: I,
    o: (FnA::Output, FnB::Output, FnC::Output, FnD::Output, FnE::Output, FnF::Output, FnG::Output, FnH::Output, FnI::Output, FnJ::Output, FnK::Output, FnL::Output, FnM::Output, FnN::Output, FnO::Output),
)
    requires
        i1 == t.0.remaining(i),
        i2 == t.1.remaining(i1),
        i3 == t.2.remaining(i2),
        i4 == t.3.remaining(i3),
        i5 == t.4.remaining(i4),
        i6 == t.5.remaining(i5),
        i7 == t.6.remaining(i6),
        i8 == t.7.remaining(i7),
        i9 == t.8.remaining(i8),
        i10 == t.9.remaining(i9),
        i11 == t.10.remaining(i10),
        i12 == t.11.remaining(i11),
        i13 == t.12.remaining(i12),
        i14 == t.13.remaining(i13),
        t.produces(i, o),
    ensures
        t.0.produces(i, o.0),
        t.1.produces(i1, o.1),
        t.2.produces(i2, o.2),
        t.3.produces(i3, o.3),
        t.4.produces(i4, o.4),
        t.5.produces(i5, o.5),
        t.6.produces(i6, o.6),
        t.7.produces(i7, o.7),
        t.8.produces(i8, o.8),
        t.9.produces(i9, o.9),
        t.10.produces(i10, o.10),
        t.11.produces(i11, o.11),
        t.12.produces(i12, o.12),
        t.13.produces(i13, o.13),
        t.14.produces(i14, o.14),
{
}

/// Fail-fast for the 15-parser tuple: the first failing component
/// decides the outcome, which is forwarded unchanged; the `parse`
/// contract adds that the components after it are never run.
pub proof fn lemma_tuple15_fail_fast<
    I: InputLength,
    E,
    FnA: Parser<I, E>,
    FnB: Parser<I, E>,
    FnC: Parser<I, E>,
    FnD: Parser<I, E>,
    FnE: Parser<I, E>,
    FnF: Parser<I, E>,
    FnG: Parser<I, E>,
    FnH: Parser<I, E>,
    FnI: Parser<I, E>,
    FnJ: Parser<I, E>,
    FnK: Parser<I, E>,
    FnL: Parser<I, E>,
    FnM: Parser<I, E>,
    FnN: Parser<I, E>,
    FnO: Parser<I, E>,
>(
    t: (FnA, FnB, FnC, FnD, FnE, FnF, FnG, FnH, FnI, FnJ, FnK, FnL, FnM, FnN, FnO),
    i: I,
    i1: I, i2: I, i3: I, i4: I, i5: I, i6: I, i7: I, i8: I, i9: I, i10: I, i11: I, i12: I, i13: I, i14: I,
)
    requires
        i1 == t.0.remaining(i),
        i2 == t.1.remaining(i1),
        i3 == t.2.remaining(i2),
        i4 == t.3.remaining(i3),
        i5 == t.4.remaining(i4),
        i6 == t.5.remaining(i5),
        i7 == t.6.remaining(i6),
        i8 == t.7.remaining(i7),
        i9 == t.8.remaining(i8),
        i10 == t.9.remaining(i9),
        i11 == t.10.remaining(i10),
        i12 == t.11.remaining(i11),
        i13 == t.12.remaining(i12),
        i14 == t.13.remaining(i13),
    ensures
        !t.0.succeeds(i) ==> !t.succeeds(i) && t.failure(i) == t.0.failure(i),
        t.0.succeeds(i) && !t.1.succeeds(i1) ==> !t.succeeds(i) && t.failure(i) == t.1.failure(i1),
        t.0.succeeds(i) && t.1.succeeds(i1) && !t.2.succeeds(i2) ==> !t.succeeds(i) && t.failure(i) == t.2.failure(i2),
        t.0.succeeds(i) && t.1.succeeds(i1) && t.2.succeeds(i2) && !t.3.succeeds(i3) ==> !t.succeeds(i) && t.failure(i) == t.3.failure(i3),
        t.0.succeeds(i) && t.1.succeeds(i1) && t.2.succeeds(i2) && t.3.succeeds(i3) && !t.4.succeeds(i4) ==> !t.succeeds(i) && t.failure(i) == t.4.failure(i4),
        t.0.succeeds(i) && t.1.succeeds(i1) && t.2.succeeds(i2) && t.3.succeeds(i3) && t.4.succeeds(i4) && !t.5.succeeds(i5) ==> !t.succeeds(i) && t.failure(i) == t.5.failure(i5),
        t.0.succeeds(i) && t.1.succeeds(i1) && t.2.succeeds(i2) && t.3.succeeds(i3) && t.4.succeeds(i4) && t.5.succeeds(i5) && !t.6.succeeds(i6) ==> !t.succeeds(i) && t.failure(i) == t.6.failure(i6),
        t.0.succeeds(i) && t.1.succeeds(i1) && t.2.succeeds(i2) && t.3.succeeds(i3) && t.4.succeeds(i4) && t.5.succeeds(i5) && t.6.succeeds(i6) && !t.7.succeeds(i7) ==> !t.succeeds(i) && t.failure(i) == t.7.failure(i7),
        t.0.succeeds(i) && t.1.succeeds(i1) && t.2.succeeds(i2) && t.3.succeeds(i3) && t.4.succeeds(i4) && t.5.succeeds(i5) && t.6.succeeds(i6) && t.7.succeeds(i7) && !t.8.succeeds(i8) ==> !t.succeeds(i) && t.failure(i) == t.8.failure(i8),
        t.0.succeeds(i) && t.1.succeeds(i1) && t.2.succeeds(i2) && t.3.succeeds(i3) && t.4.succeeds(i4) && t.5.succeeds(i5) && t.6.succeeds(i6) && t.7.succeeds(i7) && t.8.succeeds(i8) && !t.9.succeeds(i9) ==> !t.succeeds(i) && t.failure(i) == t.9.failure(i9),
        t.0.succeeds(i) && t.1.succeeds(i1) && t.2.succeeds(i2) && t.3.succeeds(i3) && t.4.succeeds(i4) && t.5.succeeds(i5) && t.6.succeeds(i6) && t.7.succeeds(i7) && t.8.succeeds(i8) && t.9.succeeds(i9) && !t.10.succeeds(i10) ==> !t.succeeds(i) && t.failure(i) == t.10.failure(i10),
        t.0.succeeds(i) && t.1.succeeds(i1) && t.2.succeeds(i2) && t.3.succeeds(i3) && t.4.succeeds(i4) && t.5.succeeds(i5) && t.6.succeeds(i6) && t.7.succeeds(i7) && t.8.succeeds(i8) && t.9.succeeds(i9) && t.10.succeeds(i10) && !t.11.succeeds(i11) ==> !t.succeeds(i) && t.failure(i) == t.11.failure(i11),
        t.0.succeeds(i) && t.1.succeeds(i1) && t.2.succeeds(i2) && t.3.succeeds(i3) && t.4.succeeds(i4) && t.5.succeeds(i5) && t.6.succeeds(i6) && t.7.succeeds(i7) && t.8.succeeds(i8) && t.9.succeeds(i9) && t.10.succeeds(i10) && t.11.succeeds(i11) && !t.12.succeeds(i12) ==> !t.succeeds(i) && t.failure(i) == t.12.failure(i12),
        t.0.succeeds(i) && t.1.succeeds(i1) && t.2.succeeds(i2) && t.3.succeeds(i3) && t.4.succeeds(i4) && t.5.succeeds(i5) && t.6.succeeds(i6) && t.7.succeeds(i7) && t.8.succeeds(i8) && t.9.succeeds(i9) && t.10.succeeds(i10) && t.11.succeeds(i11) && t.12.succeeds(i12) && !t.13.succeeds(i13) ==> !t.succeeds(i) && t.failure(i) == t.13.failure(i13),
        t.0.succeeds(i) && t.1.succeeds(i1) && t.2.succeeds(i2) && t.3.succeeds(i3) && t.4.succeeds(i4) && t.5.succeeds(i5) && t.6.succeeds(i6) && t.7.succeeds(i7) && t.8.succeeds(i8) && t.9.succeeds(i9) && t.10.succeeds(i10) && t.11.succeeds(i11) && t.12.succeeds(i12) && t.13.succeeds(i13) && !t.14.succeeds(i14) ==> !t.succeeds(i) && t.failure(i) == t.14.failure(i14),
{
}

/// Consumption additivity for the 16-parser tuple: a successful run
/// consumes exactly the sum of what the components consume, each on the
/// cursor its predecessor left, and no component gives input back.
pub proof fn lemma_tuple16_consumption<
    I: InputLength,
    E,
    FnA: Parser<I, E>,
    FnB: Parser<I, E>,
    FnC: Parser<I, E>,
    FnD: Parser<I, E>,
    FnE: Parser<I, E>,
    FnF: Parser<I, E>,
    FnG: Parser<I, E>,
    FnH: Parser<I, E>,
    FnI: Parser<I, E>,
    FnJ: Parser<I, E>,
    FnK: Parser<I, E>,
    FnL: Parser<I, E>,
    FnM: Parser<I, E>,
    FnN: Parser<I, E>,
    FnO: Parser<I, E>,
    FnP: Parser<I, E>,
>(
    t: (FnA, FnB, FnC, FnD, FnE, FnF, FnG, FnH, FnI, FnJ, FnK, FnL, FnM, FnN, FnO, FnP),
    i: I,
    i1: I, i2: I, i3: I, i4: I, i5: I, i6: I, i7: I, i8: I, i9: I, i10: I, i11: I, i12: I, i13: I, i14: I, i15: I, i16: I,
)
    requires
        t.succeeds(i),
        i1 == t.0.remaining(i),
        i2 == t.1.remaining(i1),
        i3 == t.2.remaining(i2),
        i4 == t.3.remaining(i3),
        i5 == t.4.remaining(i4),
        i6 == t.5.remaining(i5),
        i7 == t.6.remaining(i6),
        i8 == t.7.remaining(i7),
        i9 == t.8.remaining(i8),
        i10 == t.9.remaining(i9),
        i11 == t.10.remaining(i10),
        i12 == t.11.remaining(i11),
        i13 == t.12.remaining(i12),
        i14 == t.13.remaining(i13),
        i15 == t.14.remaining(i14),
        i16 == t.15.remaining(i15),
    ensures
        i16 == t.remaining(i),
        i1.length() <= i.length(),
        i2.length() <= i1.length(),
        i3.length() <= i2.length(),
        i4.length() <= i3.length(),
        i5.length() <= i4.length(),
        i6.length() <= i5.length(),
        i7.length() <= i6.length(),
        i8.length() <= i7.length(),
        i9.length() <= i8.length(),
        i10.length() <= i9.length(),
        i11.length() <= i10.length(),
        i12.length() <= i11.length(),
        i13.length() <= i12.length(),
        i14.length() <= i13.length(),
        i15.length() <= i14.length(),
        i16.length() <= i15.length(),
        i.length() - i16.length() == (i.length() - i1.length()) + (i1.length() - i2.length()) + (i2.length() - i3.length()) + (i3.length() - i4.length()) + (i4.length() - i5.length()) + (i5.length() - i6.length()) + (i6.length() - i7.length()) + (i7.length() - i8.length()) + (i8.length() - i9.length()) + (i9.length() - i10.length()) + (i10.length() - i11.length()) + (i11.length() - i12.length()) + (i12.length() - i13.length()) + (i13.length() - i14.length()) + (i14.length() - i15.length()) + (i15.length() - i16.length()),
{
    t.0.remaining_no_longer(i);
    t.1.remaining_no_longer(i1);
    t.2.remaining_no_longer(i2);
    t.3.remaining_no_longer(i3);
    t.4.remaining_no_longer(i4);
    t.5.remaining_no_longer(i5);
    t.6.remaining_no_longer(i6);
    t.7.remaining_no_longer(i7);
    t.8.remaining_no_longer(i8);
    t.9.remaining_no_longer(i9);
    t.10.remaining_no_longer(i10);
    t.11.remaining_no_longer(i11);
    t.12.remaining_no_longer(i12);
    t.13.remaining_no_longer(i13);
    t.14.remaining_no_longer(i14);
    t.15.remaining_no_longer(i15);
}

/// Order preservation for the 16-parser tuple: position `k` of the
/// product holds a value parser `k` produces when run alone on the
/// cursor left by parser `k - 1`.
pub proof fn lemma_tuple16_order<
    I: InputLength,
    E,
    FnA: Parser<I, E>,
    FnB: Parser<I, E>,
    FnC: Parser<I, E>,
    FnD: Parser<I, E>,
    FnE: Parser<I, E>,
    FnF: Parser<I, E>,
    FnG: Parser<I, E>,
    FnH: Parser<I, E>,
    FnI: Parser<I, E>,
    FnJ: Parser<I, E>,
    FnK: Parser<I, E>,
    FnL: Parser<I, E>,
    FnM: Parser<I, E>,
    FnN: Parser<I, E>,
    FnO: Parser<I, E>,
    FnP: Parser<I, E>,
>(
    t: (FnA, FnB, FnC, FnD, FnE, FnF, FnG, FnH, FnI, FnJ, FnK, FnL, FnM, FnN, FnO, FnP),
    i: I,
    i1: I, i2: I, i3: I, i4: I, i5: I, i6: I, i7: I, i8: I, i9: I, i10: I, i11: I, i12: I, i13: I, i14: I, i15: I,
    o: (FnA::Output, FnB::Output, FnC::Output, FnD::Output, FnE::Output, FnF::Output, FnG::Output, FnH::Output, FnI::Output, FnJ::Output, FnK::Output, FnL::Output, FnM::Output, FnN::Output, FnO::Output, FnP::Output),
)
    requires
        i1 == t.0.remaining(i),
        i2 == t.1.remaining(i1),
        i3 == t.2.remaining(i2),
        i4 == t.3.remaining(i3),
        i5 == t.4.remaining(i4),
        i6 == t.5.remaining(i5),
        i7 == t.6.remaining(i6),
        i8 == t.7.remaining(i7),
        i9 == t.8.remaining(i8),
        i10 == t.9.remaining(i9),
        i11 == t.10.remaining(i10),
        i12 == t.11.remaining(i11),
        i13 == t.12.remaining(i12),
        i14 == t.13.remaining(i13),
        i15 == t.14.remaining(i14),
        t.produces(i, o),
    ensures
        t.0.produces(i, o.0),
        t.1.produces(i1, o.1),
        t.2.produces(i2, o.2),
        t.3.produces(i3, o.3),
        t.4.produces(i4, o.4),
        t.5.produces(i5, o.5),
        t.6.produces(i6, o.6),
        t.7.produces(i7, o.7),
        t.8.produces(i8, o.8),
        t.9.produces(i9, o.9),
        t.10.produces(i10, o.10),
        t.11.produces(i11, o.11),
        t.12.produces(i12, o.12),
        t.13.produces(i13, o.13),
        t.14.produces(i14, o.14),
        t.15.produces(i15, o.15),
{
}

/// Fail-fast for the 16-parser tuple: the first failing component
/// decides the outcome, which is forwarded unchanged; the `parse`
/// contract adds that the components after it are never run.
pub proof fn lemma_tuple16_fail_fast<
    I: InputLength,
    E,
    FnA: Parser<I, E>,
    FnB: Parser<I, E>,
    FnC: Parser<I, E>,
    FnD: Parser<I, E>,
    FnE: Parser<I, E>,
    FnF: Parser<I, E>,
    FnG: Parser<I, E>,
    FnH: Parser<I, E>,
    FnI: Parser<I, E>,
    FnJ: Parser<I, E>,
    FnK: Parser<I, E>,
    FnL: Parser<I, E>,
    FnM: Parser<I, E>,
    FnN: Parser<I, E>,
    FnO: Parser<I, E>,
    FnP: Parser<I, E>,
>(
    t: (FnA, FnB, FnC, FnD, FnE, FnF, FnG, FnH, FnI, FnJ, FnK, FnL, FnM, FnN, FnO, FnP),
    i: I,
    i1: I, i2: I, i3: I, i4: I, i5: I, i6: I, i7: I, i8: I, i9: I, i10: I, i11: I, i12: I, i13: I, i14: I, i15: I,
)
    requires
        i1 == t.0.remaining(i),
        i2 == t.1.remaining(i1),
        i3 == t.2.remaining(i2),
        i4 == t.3.remaining(i3),
        i5 == t.4.remaining(i4),
        i6 == t.5.remaining(i5),
        i7 == t.6.remaining(i6),
        i8 == t.7.remaining(i7),
        i9 == t.8.remaining(i8),
        i10 == t.9.remaining(i9),
        i11 == t.10.remaining(i10),
        i12 == t.11.remaining(i11),
        i13 == t.12.remaining(i12),
        i14 == t.13.remaining(i13),
        i15 == t.14.remaining(i14),
    ensures
        !t.0.succeeds(i) ==> !t.succeeds(i) && t.failure(i) == t.0.failure(i),
        t.0.succeeds(i) && !t.1.succeeds(i1) ==> !t.succeeds(i) && t.failure(i) == t.1.failure(i1),
        t.0.succeeds(i) && t.1.succeeds(i1) && !t.2.succeeds(i2) ==> !t.succeeds(i) && t.failure(i) == t.2.failure(i2),
        t.0.succeeds(i) && t.1.succeeds(i1) && t.2.succeeds(i2) && !t.3.succeeds(i3) ==> !t.succeeds(i) && t.failure(i) == t.3.failure(i3),
        t.0.succeeds(i) && t.1.succeeds(i1) && t.2.succeeds(i2) && t.3.succeeds(i3) && !t.4.succeeds(i4) ==> !t.succeeds(i) && t.failure(i) == t.4.failure(i4),
        t.0.succeeds(i) && t.1.succeeds(i1) && t.2.succeeds(i2) && t.3.succeeds(i3) && t.4.succeeds(i4) && !t.5.succeeds(i5) ==> !t.succeeds(i) && t.failure(i) == t.5.failure(i5),
        t.0.succeeds(i) && t.1.succeeds(i1) && t.2.succeeds(i2) && t.3.succeeds(i3) && t.4.succeeds(i4) && t.5.succeeds(i5) && !t.6.succeeds(i6) ==> !t.succeeds(i) && t.failure(i) == t.6.failure(i6),
        t.0.succeeds(i) && t.1.succeeds(i1) && t.2.succeeds(i2) && t.3.succeeds(i3) && t.4.succeeds(i4) && t.5.succeeds(i5) && t.6.succeeds(i6) && !t.7.succeeds(i7) ==> !t.succeeds(i) && t.failure(i) == t.7.failure(i7),
        t.0.succeeds(i) && t.1.succeeds(i1) && t.2.succeeds(i2) && t.3.succeeds(i3) && t.4.succeeds(i4) && t.5.succeeds(i5) && t.6.succeeds(i6) && t.7.succeeds(i7) && !t.8.succeeds(i8) ==> !t.succeeds(i) && t.failure(i) == t.8.failure(i8),
        t.0.succeeds(i) && t.1.succeeds(i1) && t.2.succeeds(i2) && t.3.succeeds(i3) && t.4.succeeds(i4) && t.5.succeeds(i5) && t.6.succeeds(i6) && t.7.succeeds(i7) && t.8.succeeds(i8) && !t.9.succeeds(i9) ==> !t.succeeds(i) && t.failure(i) == t.9.failure(i9),
        t.0.succeeds(i) && t.1.succeeds(i1) && t.2.succeeds(i2) && t.3.succeeds(i3) && t.4.succeeds(i4) && t.5.succeeds(i5) && t.6.succeeds(i6) && t.7.succeeds(i7) && t.8.succeeds(i8) && t.9.succeeds(i9) && !t.10.succeeds(i10) ==> !t.succeeds(i) && t.failure(i) == t.10.failure(i10),
        t.0.succeeds(i) && t.1.succeeds(i1) && t.2.succeeds(i2) && t.3.succeeds(i3) && t.4.succeeds(i4) && t.5.succeeds(i5) && t.6.succeeds(i6) && t.7.succeeds(i7) && t.8.succeeds(i8) && t.9.succeeds(i9) && t.10.succeeds(i10) && !t.11.succeeds(i11) ==> !t.succeeds(i) && t.failure(i) == t.11.failure(i11),
        t.0.succeeds(i) && t.1.succeeds(i1) && t.2.succeeds(i2) && t.3.succeeds(i3) && t.4.succeeds(i4) && t.5.succeeds(i5) && t.6.succeeds(i6) && t.7.succeeds(i7) && t.8.succeeds(i8) && t.9.succeeds(i9) && t.10.succeeds(i10) && t.11.succeeds(i11) && !t.12.succeeds(i12) ==> !t.succeeds(i) && t.failure(i) == t.12.failure(i12),
        t.0.succeeds(i) && t.1.succeeds(i1) && t.2.succeeds(i2) && t.3.succeeds(i3) && t.4.succeeds(i4) && t.5.succeeds(i5) && t.6.succeeds(i6) && t.7.succeeds(i7) && t.8.succeeds(i8) && t.9.succeeds(i9) && t.10.succeeds(i10) && t.11.succeeds(i11) && t.12.succeeds(i12) && !t.13.succeeds(i13) ==> !t.succeeds(i) && t.failure(i) == t.13.failure(i13),
        t.0.succeeds(i) && t.1.succeeds(i1) && t.2.succeeds(i2) && t.3.succeeds(i3) && t.4.succeeds(i4) && t.5.succeeds(i5) && t.6.succeeds(i6) && t.7.succeeds(i7) && t.8.succeeds(i8) && t.9.succeeds(i9) && t.10.succeeds(i10) && t.11.succeeds(i11) && t.12.succeeds(i12) && t.13.succeeds(i13) && !t.14.succeeds(i14) ==> !t.succeeds(i) && t.failure(i) == t.14.failure(i14),
        t.0.succeeds(i) && t.1.succeeds(i1) && t.2.succeeds(i2) && t.3.succeeds(i3) && t.4.succeeds(i4) && t.5.succeeds(i5) && t.6.succeeds(i6) && t.7.succeeds(i7) && t.8.succeeds(i8) && t.9.succeeds(i9) && t.10.succeeds(i10) && t.11.succeeds(i11) && t.12.succeeds(i12) && t.13.succeeds(i13) && t.14.succeeds(i14) && !t.15.succeeds(i15) ==> !t.succeeds(i) && t.failure(i) == t.15.failure(i15),
{
}

/// Consumption additivity for the 17-parser tuple: a successful run
/// consumes exactly the sum of what the components consume, each on the
/// cursor its predecessor left, and no component gives input back.
pub proof fn lemma_tuple17_consumption<
    I: InputLength,
    E,
    FnA: Parser<I, E>,
    FnB: Parser<I, E>,
    FnC: Parser<I, E>,
    FnD: Parser<I, E>,
    FnE: Parser<I, E>,
    FnF: Parser<I, E>,
    FnG: Parser<I, E>,
    FnH: Parser<I, E>,
    FnI: Parser<I, E>,
    FnJ: Parser<I, E>,
    FnK: Parser<I, E>,
    FnL: Parser<I, E>,
    FnM: Parser<I, E>,
    FnN: Parser<I, E>,
    FnO: Parser<I, E>,
    FnP: Parser<I, E>,
    FnQ: Parser<I, E>,
>(
    t: (FnA, FnB, FnC, FnD, FnE, FnF, FnG, FnH, FnI, FnJ, FnK, FnL, FnM, FnN, FnO, FnP, FnQ),
    i: I,
    i1: I, i2: I, i3: I, i4: I, i5: I, i6: I, i7: I, i8: I, i9: I, i10: I, i11: I, i12: I, i13: I, i14: I, i15: I, i16: I, i17: I,
)
    requires
        t.succeeds(i),
        i1 == t.0.remaining(i),
        i2 == t.1.remaining(i1),
        i3 == t.2.remaining(i2),
        i4 == t.3.remaining(i3),
        i5 == t.4.remaining(i4),
        i6 == t.5.remaining(i5),
        i7 == t.6.remaining(i6),
        i8 == t.7.remaining(i7),
        i9 == t.8.remaining(i8),
        i10 == t.9.remaining(i9),
        i11 == t.10.remaining(i10),
        i12 == t.11.remaining(i11),
        i13 == t.12.remaining(i12),
        i14 == t.13.remaining(i13),
        i15 == t.14.remaining(i14),
        i16 == t.15.remaining(i15),
        i17 == t.16.remaining(i16),
    ensures
        i17 == t.remaining(i),
        i1.length() <= i.length(),
        i2.length() <= i1.length(),
        i3.length() <= i2.length(),
        i4.length() <= i3.length(),
        i5.length() <= i4.length(),
        i6.length() <= i5.length(),
        i7.length() <= i6.length(),
        i8.length() <= i7.length(),
        i9.length() <= i8.length(),
        i10.length() <= i9.length(),
        i11.length() <= i10.length(),
        i12.length() <= i11.length(),
        i13.length() <= i12.length(),
        i14.length() <= i13.length(),
        i15.length() <= i14.length(),
        i16.length() <= i15.length(),
        i17.length() <= i16.length(),
        i.length() - i17.length() == (i.length() - i1.length()) + (i1.length() - i2.length()) + (i2.length() - i3.length()) + (i3.length() - i4.length()) + (i4.length() - i5.length()) + (i5.length() - i6.length()) + (i6.length() - i7.length()) + (i7.length() - i8.length()) + (i8.length() - i9.length()) + (i9.length() - i10.length()) + (i10.length() - i11.length()) + (i11.length() - i12.length()) + (i12.length() - i13.length()) + (i13.length() - i14.length()) + (i14.length() - i15.length()) + (i15.length() - i16.length()) + (i16.length() - i17.length()),
{
    t.0.remaining_no_longer(i);
    t.1.remaining_no_longer(i1);
    t.2.remaining_no_longer(i2);
    t.3.remaining_no_longer(i3);
    t.4.remaining_no_longer(i4);
    t.5.remaining_no_longer(i5);
    t.6.remaining_no_longer(i6);
    t.7.remaining_no_longer(i7);
    t.8.remaining_no_longer(i8);
    t.9.remaining_no_longer(i9);
    t.10.remaining_no_longer(i10);
    t.11.remaining_no_longer(i11);
    t.12.remaining_no_longer(i12);
    t.13.remaining_no_longer(i13);
    t.14.remaining_no_longer(i14);
    t.15.remaining_no_longer(i15);
    t.16.remaining_no_longer(i16);
}

/// Order preservation for the 17-parser tuple: position `k` of the
/// product holds a value parser `k` produces when run alone on the
/// cursor left by parser `k - 1`.
pub proof fn lemma_tuple17_order<
    I: InputLength,
    E,
    FnA: Parser<I, E>,
    FnB: Parser<I, E>,
    FnC: Parser<I, E>,
    FnD: Parser<I, E>,
    FnE: Parser<I, E>,
    FnF: Parser<I, E>,
    FnG: Parser<I, E>,
    FnH: Parser<I, E>,
    FnI: Parser<I, E>,
    FnJ: Parser<I, E>,
    FnK: Parser<I, E>,
    FnL: Parser<I, E>,
    FnM: Parser<I, E>,
    FnN: Parser<I, E>,
    FnO: Parser<I, E>,
    FnP: Parser<I, E>,
    FnQ: Parser<I, E>,
>(
    t: (FnA, FnB, FnC, FnD, FnE, FnF, FnG, FnH, FnI, FnJ, FnK, FnL, FnM, FnN, FnO, FnP, FnQ),
    i: I,
    i1: I, i2: I, i3: I, i4: I, i5: I, i6: I, i7: I, i8: I, i9: I, i10: I, i11: I, i12: I, i13: I, i14: I, i15: I, i16: I,
    o: (FnA::Output, FnB::Output, FnC::Output, FnD::Output, FnE::Output, FnF::Output, FnG::Output, FnH::Output, FnI::Output, FnJ::Output, FnK::Output, FnL::Output, FnM::Output, FnN::Output, FnO::Output, FnP::Output, FnQ::Output),
)
    requires
        i1 == t.0.remaining(i),
        i2 == t.1.remaining(i1),
        i3 == t.2.remaining(i2),
        i4 == t.3.remaining(i3),
        i5 == t.4.remaining(i4),
        i6 == t.5.remaining(i5),
        i7 == t.6.remaining(i6),
        i8 == t.7.remaining(i7),
        i9 == t.8.remaining(i8),
        i10 == t.9.remaining(i9),
        i11 == t.10.remaining(i10),
        i12 == t.11.remaining(i11),
        i13 == t.12.remaining(i12),
        i14 == t.13.remaining(i13),
        i15 == t.14.remaining(i14),
        i16 == t.15.remaining(i15),
        t.produces(i, o),
    ensures
        t.0.produces(i, o.0),
        t.1.produces(i1, o.1),
        t.2.produces(i2, o.2),
        t.3.produces(i3, o.3),
        t.4.produces(i4, o.4),
        t.5.produces(i5, o.5),
        t.6.produces(i6, o.6),
        t.7.produces(i7, o.7),
        t.8.produces(i8, o.8),
        t.9.produces(i9, o.9),
        t.10.produces(i10, o.10),
        t.11.produces(i11, o.11),
        t.12.produces(i12, o.12),
        t.13.produces(i13, o.13),
        t.14.produces(i14, o.14),
        t.15.produces(i15, o.15),
        t.16.produces(i16, o.16),
{
}

/// Fail-fast for the 17-parser tuple: the first failing component
/// decides the outcome, which is forwarded unchanged; the `parse`
/// contract adds that the components after it are never run.
pub proof fn lemma_tuple17_fail_fast<
    I: InputLength,
    E,
    FnA: Parser<I, E>,
    FnB: Parser<I, E>,
    FnC: Parser<I, E>,
    FnD: Parser<I, E>,
    FnE: Parser<I, E>,
    FnF: Parser<I, E>,
    FnG: Parser<I, E>,
    FnH: Parser<I, E>,
    FnI: Parser<I, E>,
    FnJ: Parser<I, E>,
    FnK: Parser<I, E>,
    FnL: Parser<I, E>,
    FnM: Parser<I, E>,
    FnN: Parser<I, E>,
    FnO: Parser<I, E>,
    FnP: Parser<I, E>,
    FnQ: Parser<I, E>,
>(
    t: (FnA, FnB, FnC, FnD, FnE, FnF, FnG, FnH, FnI, FnJ, FnK, FnL, FnM, FnN, FnO, FnP, FnQ),
    i: I,
    i1: I, i2: I, i3: I, i4: I, i5: I, i6: I, i7: I, i8: I, i9: I, i10: I, i11: I, i12: I, i13: I, i14: I, i15: I, i16: I,
)
    requires
        i1 == t.0.remaining(i),
        i2 == t.1.remaining(i1),
        i3 == t.2.remaining(i2),
        i4 == t.3.remaining(i3),
        i5 == t.4.remaining(i4),
        i6 == t.5.remaining(i5),
        i7 == t.6.remaining(i6),
        i8 == t.7.remaining(i7),
        i9 == t.8.remaining(i8),
        i10 == t.9.remaining(i9),
        i11 == t.10.remaining(i10),
        i12 == t.11.remaining(i11),
        i13 == t.12.remaining(i12),
        i14 == t.13.remaining(i13),
        i15 == t.14.remaining(i14),
        i16 == t.15.remaining(i15),
    ensures
        !t.0.succeeds(i) ==> !t.succeeds(i) && t.failure(i) == t.0.failure(i),
        t.0.succeeds(i) && !t.1.succeeds(i1) ==> !t.succeeds(i) && t.failure(i) == t.1.failure(i1),
        t.0.succeeds(i) && t.1.succeeds(i1) && !t.2.succeeds(i2) ==> !t.succeeds(i) && t.failure(i) == t.2.failure(i2),
        t.0.succeeds(i) && t.1.succeeds(i1) && t.2.succeeds(i2) && !t.3.succeeds(i3) ==> !t.succeeds(i) && t.failure(i) == t.3.failure(i3),
        t.0.succeeds(i) && t.1.succeeds(i1) && t.2.succeeds(i2) && t.3.succeeds(i3) && !t.4.succeeds(i4) ==> !t.succeeds(i) && t.failure(i) == t.4.failure(i4),
        t.0.succeeds(i) && t.1.succeeds(i1) && t.2.succeeds(i2) && t.3.succeeds(i3) && t.4.succeeds(i4) && !t.5.succeeds(i5) ==> !t.succeeds(i) && t.failure(i) == t.5.failure(i5),
        t.0.succeeds(i) && t.1.succeeds(i1) && t.2.succeeds(i2) && t.3.succeeds(i3) && t.4.succeeds(i4) && t.5.succeeds(i5) && !t.6.succeeds(i6) ==> !t.succeeds(i) && t.failure(i) == t.6.failure(i6),
        t.0.succeeds(i) && t.1.succeeds(i1) && t.2.succeeds(i2) && t.3.succeeds(i3) && t.4.succeeds(i4) && t.5.succeeds(i5) && t.6.succeeds(i6) && !t.7.succeeds(i7) ==> !t.succeeds(i) && t.failure(i) == t.7.failure(i7),
        t.0.succeeds(i) && t.1.succeeds(i1) && t.2.succeeds(i2) && t.3.succeeds(i3) && t.4.succeeds(i4) && t.5.succeeds(i5) && t.6.succeeds(i6) && t.7.succeeds(i7) && !t.8.succeeds(i8) ==> !t.succeeds(i) && t.failure(i) == t.8.failure(i8),
        t.0.succeeds(i) && t.1.succeeds(i1) && t.2.succeeds(i2) && t.3.succeeds(i3) && t.4.succeeds(i4) && t.5.succeeds(i5) && t.6.succeeds(i6) && t.7.succeeds(i7) && t.8.succeeds(i8) && !t.9.succeeds(i9) ==> !t.succeeds(i) && t.failure(i) == t.9.failure(i9),
        t.0.succeeds(i) && t.1.succeeds(i1) && t.2.succeeds(i2) && t.3.succeeds(i3) && t.4.succeeds(i4) && t.5.succeeds(i5) && t.6.succeeds(i6) && t.7.succeeds(i7) && t.8.succeeds(i8) && t.9.succeeds(i9) && !t.10.succeeds(i10) ==> !t.succeeds(i) && t.failure(i) == t.10.failure(i10),
        t.0.succeeds(i) && t.1.succeeds(i1) && t.2.succeeds(i2) && t.3.succeeds(i3) && t.4.succeeds(i4) && t.5.succeeds(i5) && t.6.succeeds(i6) && t.7.succeeds(i7) && t.8.succeeds(i8) && t.9.succeeds(i9) && t.10.succeeds(i10) && !t.11.succeeds(i11) ==> !t.succeeds(i) && t.failure(i) == t.11.failure(i11),
        t.0.succeeds(i) && t.1.succeeds(i1) && t.2.succeeds(i2) && t.3.succeeds(i3) && t.4.succeeds(i4) && t.5.succeeds(i5) && t.6.succeeds(i6) && t.7.succeeds(i7) && t.8.succeeds(i8) && t.9.succeeds(i9) && t.10.succeeds(i10) && t.11.succeeds(i11) && !t.12.succeeds(i12) ==> !t.succeeds(i) && t.failure(i) == t.12.failure(i12),
        t.0.succeeds(i) && t.1.succeeds(i1) && t.2.succeeds(i2) && t.3.succeeds(i3) && t.4.succeeds(i4) && t.5.succeeds(i5) && t.6.succeeds(i6) && t.7.succeeds(i7) && t.8.succeeds(i8) && t.9.succeeds(i9) && t.10.succeeds(i10) && t.11.succeeds(i11) && t.12.succeeds(i12) && !t.13.succeeds(i13) ==> !t.succeeds(i) && t.failure(i) == t.13.failure(i13),
        t.0.succeeds(i) && t.1.succeeds(i1) && t.2.succeeds(i2) && t.3.succeeds(i3) && t.4.succeeds(i4) && t.5.succeeds(i5) && t.6.succeeds(i6) && t.7.succeeds(i7) && t.8.succeeds(i8) && t.9.succeeds(i9) && t.10.succeeds(i10) && t.11.succeeds(i11) && t.12.succeeds(i12) && t.13.succeeds(i13) && !t.14.succeeds(i14) ==> !t.succeeds(i) && t.failure(i) == t.14.failure(i14),
        t.0.succeeds(i) && t.1.succeeds(i1) && t.2.succeeds(i2) && t.3.succeeds(i3) && t.4.succeeds(i4) && t.5.succeeds(i5) && t.6.succeeds(i6) && t.7.succeeds(i7) && t.8.succeeds(i8) && t.9.succeeds(i9) && t.10.succeeds(i10) && t.11.succeeds(i11) && t.12.succeeds(i12) && t.13.succeeds(i13) && t.14.succeeds(i14) && !t.15.succeeds(i15) ==> !t.succeeds(i) && t.failure(i) == t.15.failure(i15),
        t.0.succeeds(i) && t.1.succeeds(i1) && t.2.succeeds(i2) && t.3.succeeds(i3) && t.4.succeeds(i4) && t.5.succeeds(i5) && t.6.succeeds(i6) && t.7.succeeds(i7) && t.8.succeeds(i8) && t.9.succeeds(i9) && t.10.succeeds(i10) && t.11.succeeds(i11) && t.12.succeeds(i12) && t.13.succeeds(i13) && t.14.succeeds(i14) && t.15.succeeds(i15) && !t.16.succeeds(i16) ==> !t.succeeds(i) && t.failure(i) == t.16.failure(i16),
{
}

/// Consumption additivity for the 18-parser tuple: a successful run
/// consumes exactly the sum of what the components consume, each on the
/// cursor its predecessor left, and no component gives input back.
pub proof fn lemma_tuple18_consumption<
    I: InputLength,
    E,
    FnA: Parser<I, E>,
    FnB: Parser<I, E>,
    FnC: Parser<I, E>,
    FnD: Parser<I, E>,
    FnE: Parser<I, E>,
    FnF: Parser<I, E>,
    FnG: Parser<I, E>,
    FnH: Parser<I, E>,
    FnI: Parser<I, E>,
    FnJ: Parser<I, E>,
    FnK: Parser<I, E>,
    FnL: Parser<I, E>,
    FnM: Parser<I, E>,
    FnN: Parser<I, E>,
    FnO: Parser<I, E>,
    FnP: Parser<I, E>,
    FnQ: Parser<I, E>,
    FnR: Parser<I, E>,
>(
    t: (FnA, FnB, FnC, FnD, FnE, FnF, FnG, FnH, FnI, FnJ, FnK, FnL, FnM, FnN, FnO, FnP, FnQ, FnR),
    i: I,
    i1: I, i2: I, i3: I, i4: I, i5: I, i6: I, i7: I, i8: I, i9: I, i10: I, i11: I, i12: I, i13: I, i14: I, i15: I, i16: I, i17: I, i18: I,
)
    requires
        t.succeeds(i),
        i1 == t.0.remaining(i),
        i2 == t.1.remaining(i1),
        i3 == t.2.remaining(i2),
        i4 == t.3.remaining(i3),
        i5 == t.4.remaining(i4),
        i6 == t.5.remaining(i5),
        i7 == t.6.remaining(i6),
        i8 == t.7.remaining(i7),
        i9 == t.8.remaining(i8),
        i10 == t.9.remaining(i9),
        i11 == t.10.remaining(i10),
        i12 == t.11.remaining(i11),
        i13 == t.12.remaining(i12),
        i14 == t.13.remaining(i13),
        i15 == t.14.remaining(i14),
        i16 == t.15.remaining(i15),
        i17 == t.16.remaining(i16),
        i18 == t.17.remaining(i17),
    ensures
        i18 == t.remaining(i),
        i1.length() <= i.length(),
        i2.length() <= i1.length(),
        i3.length() <= i2.length(),
        i4.length() <= i3.length(),
        i5.length() <= i4.length(),
        i6.length() <= i5.length(),
        i7.length() <= i6.length(),
        i8.length() <= i7.length(),
        i9.length() <= i8.length(),
        i10.length() <= i9.length(),
        i11.length() <= i10.length(),
        i12.length() <= i11.length(),
        i13.length() <= i12.length(),
        i14.length() <= i13.length(),
        i15.length() <= i14.length(),
        i16.length() <= i15.length(),
        i17.length() <= i16.length(),
        i18.length() <= i17.length(),
        i.length() - i18.length() == (i.length() - i1.length()) + (i1.length() - i2.length()) + (i2.length() - i3.length()) + (i3.length() - i4.length()) + (i4.length() - i5.length()) + (i5.length() - i6.length()) + (i6.length() - i7.length()) + (i7.length() - i8.length()) + (i8.length() - i9.length()) + (i9.length() - i10.length()) + (i10.length() - i11.length()) + (i11.length() - i12.length()) + (i12.length() - i13.length()) + (i13.length() - i14.length()) + (i14.length() - i15.length()) + (i15.length() - i16.length()) + (i16.length() - i17.length()) + (i17.length() - i18.length()),
{
    t.0.remaining_no_longer(i);
    t.1.remaining_no_longer(i1);
    t.2.remaining_no_longer(i2);
    t.3.remaining_no_longer(i3);
    t.4.remaining_no_longer(i4);
    t.5.remaining_no_longer(i5);
    t.6.remaining_no_longer(i6);
    t.7.remaining_no_longer(i7);
    t.8.remaining_no_longer(i8);
    t.9.remaining_no_longer(i9);
    t.10.remaining_no_longer(i10);
    t.11.remaining_no_longer(i11);
    t.12.remaining_no_longer(i12);
    t.13.remaining_no_longer(i13);
    t.14.remaining_no_longer(i14);
    t.15.remaining_no_longer(i15);
    t.16.remaining_no_longer(i16);
    t.17.remaining_no_longer(i17);
}

/// Order preservation for the 18-parser tuple: position `k` of the
/// product holds a value parser `k` produces when run alone on the
/// cursor left by parser `k - 1`.
pub proof fn lemma_tuple18_order<
    I: InputLength,
    E,
    FnA: Parser<I, E>,
    FnB: Parser<I, E>,
    FnC: Parser<I, E>,
    FnD: Parser<I, E>,
    FnE: Parser<I, E>,
    FnF: Parser<I, E>,
    FnG: Parser<I, E>,
    FnH: Parser<I, E>,
    FnI: Parser<I, E>,
    FnJ: Parser<I, E>,
    FnK: Parser<I, E>,
    FnL: Parser<I, E>,
    FnM: Parser<I, E>,
    FnN: Parser<I, E>,
    FnO: Parser<I, E>,
    FnP: Parser<I, E>,
    FnQ: Parser<I, E>,
    FnR: Parser<I, E>,
>(
    t: (FnA, FnB, FnC, FnD, FnE, FnF, FnG, FnH, FnI, FnJ, FnK, FnL, FnM, FnN, FnO, FnP, FnQ, FnR),
    i: I,
    i1: I, i2: I, i3: I, i4: I, i5: I, i6: I, i7: I, i8: I, i9: I, i10: I, i11: I, i12: I, i13: I, i14: I, i15: I, i16: I, i17: I,
    o: (FnA::Output, FnB::Output, FnC::Output, FnD::Output, FnE::Output, FnF::Output, FnG::Output, FnH::Output, FnI::Output, FnJ::Output, FnK::Output, FnL::Output, FnM::Output, FnN::Output, FnO::Output, FnP::Output, FnQ::Output, FnR::Output),
)
    requires
        i1 == t.0.remaining(i),
        i2 == t.1.remaining(i1),
        i3 == t.2.remaining(i2),
        i4 == t.3.remaining(i3),
        i5 == t.4.remaining(i4),
        i6 == t.5.remaining(i5),
        i7 == t.6.remaining(i6),
        i8 == t.7.remaining(i7),
        i9 == t.8.remaining(i8),
        i10 == t.9.remaining(i9),
        i11 == t.10.remaining(i10),
        i12 == t.11.remaining(i11),
        i13 == t.12.remaining(i12),
        i14 == t.13.remaining(i13),
        i15 == t.14.remaining(i14),
        i16 == t.15.remaining(i15),
        i17 == t.16.remaining(i16),
        t.produces(i, o),
    ensures
        t.0.produces(i, o.0),
        t.1.produces(i1, o.1),
        t.2.produces(i2, o.2),
        t.3.produces(i3, o.3),
        t.4.produces(i4, o.4),
        t.5.produces(i5, o.5),
        t.6.produces(i6, o.6),
        t.7.produces(i7, o.7),
        t.8.produces(i8, o.8),
        t.9.produces(i9, o.9),
        t.10.produces(i10, o.10),
        t.11.produces(i11, o.11),
        t.12.produces(i12, o.12),
        t.13.produces(i13, o.13),
        t.14.produces(i14, o.14),
        t.15.produces(i15, o.15),
        t.16.produces(i16, o.16),
        t.17.produces(i17, o.17),
{
}

/// Fail-fast for the 18-parser tuple: the first failing component
/// decides the outcome, which is forwarded unchanged; the `parse`
/// contract adds that the components after it are never run.
pub proof fn lemma_tuple18_fail_fast<
    I: InputLength,
    E,
    FnA: Parser<I, E>,
    FnB: Parser<I, E>,
    FnC: Parser<I, E>,
    FnD: Parser<I, E>,
    FnE: Parser<I, E>,
    FnF: Parser<I, E>,
    FnG: Parser<I, E>,
    FnH: Parser<I, E>,
    FnI: Parser<I, E>,
    FnJ: Parser<I, E>,
    FnK: Parser<I, E>,
    FnL: Parser<I, E>,
    FnM: Parser<I, E>,
    FnN: Parser<I, E>,
    FnO: Parser<I, E>,
    FnP: Parser<I, E>,
    FnQ: Parser<I, E>,
    FnR: Parser<I, E>,
>(
    t: (FnA, FnB, FnC, FnD, FnE, FnF, FnG, FnH, FnI, FnJ, FnK, FnL, FnM, FnN, FnO, FnP, FnQ, FnR),
    i: I,
    i1: I, i2: I, i3: I, i4: I, i5: I, i6: I, i7: I, i8: I, i9: I, i10: I, i11: I, i12: I, i13: I, i14: I, i15: I, i16: I, i17: I,
)
    requires
        i1 == t.0.remaining(i),
        i2 == t.1.remaining(i1),
        i3 == t.2.remaining(i2),
        i4 == t.3.remaining(i3),
        i5 == t.4.remaining(i4),
        i6 == t.5.remaining(i5),
        i7 == t.6.remaining(i6),
        i8 == t.7.remaining(i7),
        i9 == t.8.remaining(i8),
        i10 == t.9.remaining(i9),
        i11 == t.10.remaining(i10),
        i12 == t.11.remaining(i11),
        i13 == t.12.remaining(i12),
        i14 == t.13.remaining(i13),
        i15 == t.14.remaining(i14),
        i16 == t.15.remaining(i15),
        i17 == t.16.remaining(i16),
    ensures
        !t.0.succeeds(i) ==> !t.succeeds(i) && t.failure(i) == t.0.failure(i),
        t.0.succeeds(i) && !t.1.succeeds(i1) ==> !t.succeeds(i) && t.failure(i) == t.1.failure(i1),
        t.0.succeeds(i) && t.1.succeeds(i1) && !t.2.succeeds(i2) ==> !t.succeeds(i) && t.failure(i) == t.2.failure(i2),
        t.0.succeeds(i) && t.1.succeeds(i1) && t.2.succeeds(i2) && !t.3.succeeds(i3) ==> !t.succeeds(i) && t.failure(i) == t.3.failure(i3),
        t.0.succeeds(i) && t.1.succeeds(i1) && t.2.succeeds(i2) && t.3.succeeds(i3) && !t.4.succeeds(i4) ==> !t.succeeds(i) && t.failure(i) == t.4.failure(i4),
        t.0.succeeds(i) && t.1.succeeds(i1) && t.2.succeeds(i2) && t.3.succeeds(i3) && t.4.succeeds(i4) && !t.5.succeeds(i5) ==> !t.succeeds(i) && t.failure(i) == t.5.failure(i5),
        t.0.succeeds(i) && t.1.succeeds(i1) && t.2.succeeds(i2) && t.3.succeeds(i3) && t.4.succeeds(i4) && t.5.succeeds(i5) && !t.6.succeeds(i6) ==> !t.succeeds(i) && t.failure(i) == t.6.failure(i6),
        t.0.succeeds(i) && t.1.succeeds(i1) && t.2.succeeds(i2) && t.3.succeeds(i3) && t.4.succeeds(i4) && t.5.succeeds(i5) && t.6.succeeds(i6) && !t.7.succeeds(i7) ==> !t.succeeds(i) && t.failure(i) == t.7.failure(i7),
        t.0.succeeds(i) && t.1.succeeds(i1) && t.2.succeeds(i2) && t.3.succeeds(i3) && t.4.succeeds(i4) && t.5.succeeds(i5) && t.6.succeeds(i6) && t.7.succeeds(i7) && !t.8.succeeds(i8) ==> !t.succeeds(i) && t.failure(i) == t.8.failure(i8),
        t.0.succeeds(i) && t.1.succeeds(i1) && t.2.succeeds(i2) && t.3.succeeds(i3) && t.4.succeeds(i4) && t.5.succeeds(i5) && t.6.succeeds(i6) && t.7.succeeds(i7) && t.8.succeeds(i8) && !t.9.succeeds(i9) ==> !t.succeeds(i) && t.failure(i) == t.9.failure(i9),
        t.0.succeeds(i) && t.1.succeeds(i1) && t.2.succeeds(i2) && t.3.succeeds(i3) && t.4.succeeds(i4) && t.5.succeeds(i5) && t.6.succeeds(i6) && t.7.succeeds(i7) && t.8.succeeds(i8) && t.9.succeeds(i9) && !t.10.succeeds(i10) ==> !t.succeeds(i) && t.failure(i) == t.10.failure(i10),
        t.0.succeeds(i) && t.1.succeeds(i1) && t.2.succeeds(i2) && t.3.succeeds(i3) && t.4.succeeds(i4) && t.5.succeeds(i5) && t.6.succeeds(i6) && t.7.succeeds(i7) && t.8.succeeds(i8) && t.9.succeeds(i9) && t.10.succeeds(i10) && !t.11.succeeds(i11) ==> !t.succeeds(i) && t.failure(i) == t.11.failure(i11),
        t.0.succeeds(i) && t.1.succeeds(i1) && t.2.succeeds(i2) && t.3.succeeds(i3) && t.4.succeeds(i4) && t.5.succeeds(i5) && t.6.succeeds(i6) && t.7.succeeds(i7) && t.8.succeeds(i8) && t.9.succeeds(i9) && t.10.succeeds(i10) && t.11.succeeds(i11) && !t.12.succeeds(i12) ==> !t.succeeds(i) && t.failure(i) == t.12.failure(i12),
        t.0.succeeds(i) && t.1.succeeds(i1) && t.2.succeeds(i2) && t.3.succeeds(i3) && t.4.succeeds(i4) && t.5.succeeds(i5) && t.6.succeeds(i6) && t.7.succeeds(i7) && t.8.succeeds(i8) && t.9.succeeds(i9) && t.10.succeeds(i10) && t.11.succeeds(i11) && t.12.succeeds(i12) && !t.13.succeeds(i13) ==> !t.succeeds(i) && t.failure(i) == t.13.failure(i13),
        t.0.succeeds(i) && t.1.succeeds(i1) && t.2.succeeds(i2) && t.3.succeeds(i3) && t.4.succeeds(i4) && t.5.succeeds(i5) && t.6.succeeds(i6) && t.7.succeeds(i7) && t.8.succeeds(i8) && t.9.succeeds(i9) && t.10.succeeds(i10) && t.11.succeeds(i11) && t.12.succeeds(i12) && t.13.succeeds(i13) && !t.14.succeeds(i14) ==> !t.succeeds(i) && t.failure(i) == t.14.failure(i14),
        t.0.succeeds(i) && t.1.succeeds(i1) && t.2.succeeds(i2) && t.3.succeeds(i3) && t.4.succeeds(i4) && t.5.succeeds(i5) && t.6.succeeds(i6) && t.7.succeeds(i7) && t.8.succeeds(i8) && t.9.succeeds(i9) && t.10.succeeds(i10) && t.11.succeeds(i11) && t.12.succeeds(i12) && t.13.succeeds(i13) && t.14.succeeds(i14) && !t.15.succeeds(i15) ==> !t.succeeds(i) && t.failure(i) == t.15.failure(i15),
        t.0.succeeds(i) && t.1.succeeds(i1) && t.2.succeeds(i2) && t.3.succeeds(i3) && t.4.succeeds(i4) && t.5.succeeds(i5) && t.6.succeeds(i6) && t.7.succeeds(i7) && t.8.succeeds(i8) && t.9.succeeds(i9) && t.10.succeeds(i10) && t.11.succeeds(i11) && t.12.succeeds(i12) && t.13.succeeds(i13) && t.14.succeeds(i14) && t.15.succeeds(i15) && !t.16.succeeds(i16) ==> !t.succeeds(i) && t.failure(i) == t.16.failure(i16),
        t.0.succeeds(i) && t.1.succeeds(i1) && t.2.succeeds(i2) && t.3.succeeds(i3) && t.4.succeeds(i4) && t.5.succeeds(i5) && t.6.succeeds(i6) && t.7.succeeds(i7) && t.8.succeeds(i8) && t.9.succeeds(i9) && t.10.succeeds(i10) && t.11.succeeds(i11) && t.12.succeeds(i12) && t.13.succeeds(i13) && t.14.succeeds(i14) && t.15.succeeds(i15) && t.16.succeeds(i16) && !t.17.succeeds(i17) ==> !t.succeeds(i) && t.failure(i) == t.17.failure(i17),
{
}

/// Consumption additivity for the 19-parser tuple: a successful run
/// consumes exactly the sum of what the components consume, each on the
/// cursor its predecessor left, and no component gives input back.
pub proof fn lemma_tuple19_consumption<
    I: InputLength,
    E,
    FnA: Parser<I, E>,
    FnB: Parser<I, E>,
    FnC: Parser<I, E>,
    FnD: Parser<I, E>,
    FnE: Parser<I, E>,
    FnF: Parser<I, E>,
    FnG: Parser<I, E>,
    FnH: Parser<I, E>,
    FnI: Parser<I, E>,
    FnJ: Parser<I, E>,
    FnK: Parser<I, E>,
    FnL: Parser<I, E>,
    FnM: Parser<I, E>,
    FnN: Parser<I, E>,
    FnO: Parser<I, E>,
    FnP: Parser<I, E>,
    FnQ: Parser<I, E>,
    FnR: Parser<I, E>,
    FnS: Parser<I, E>,
>(
    t: (FnA, FnB, FnC, FnD, FnE, FnF, FnG, FnH, FnI, FnJ, FnK, FnL, FnM, FnN, FnO, FnP, FnQ, FnR, FnS),
    i: I,
    i1: I, i2: I, i3: I, i4: I, i5: I, i6: I, i7: I, i8: I, i9: I, i10: I, i11: I, i12: I, i13: I, i14: I, i15: I, i16: I, i17: I, i18: I, i19: I,
)
    requires
        t.succeeds(i),
        i1 == t.0.remaining(i),
        i2 == t.1.remaining(i1),
        i3 == t.2.remaining(i2),
        i4 == t.3.remaining(i3),
        i5 == t.4.remaining(i4),
        i6 == t.5.remaining(i5),
        i7 == t.6.remaining(i6),
        i8 == t.7.remaining(i7),
        i9 == t.8.remaining(i8),
        i10 == t.9.remaining(i9),
        i11 == t.10.remaining(i10),
        i12 == t.11.remaining(i11),
        i13 == t.12.remaining(i12),
        i14 == t.13.remaining(i13),
        i15 == t.14.remaining(i14),
        i16 == t.15.remaining(i15),
        i17 == t.16.remaining(i16),
        i18 == t.17.remaining(i17),
        i19 == t.18.remaining(i18),
    ensures
        i19 == t.remaining(i),
        i1.length() <= i.length(),
        i2.length() <= i1.length(),
        i3.length() <= i2.length(),
        i4.length() <= i3.length(),
        i5.length() <= i4.length(),
        i6.length() <= i5.length(),
        i7.length() <= i6.length(),
        i8.length() <= i7.length(),
        i9.length() <= i8.length(),
        i10.length() <= i9.length(),
        i11.length() <= i10.length(),
        i12.length() <= i11.length(),
        i13.length() <= i12.length(),
        i14.length() <= i13.length(),
        i15.length() <= i14.length(),
        i16.length() <= i15.length(),
        i17.length() <= i16.length(),
        i18.length() <= i17.length(),
        i19.length() <= i18.length(),
        i.length() - i19.length() == (i.length() - i1.length()) + (i1.length() - i2.length()) + (i2.length() - i3.length()) + (i3.length() - i4.length()) + (i4.length() - i5.length()) + (i5.length() - i6.length()) + (i6.length() - i7.length()) + (i7.length() - i8.length()) + (i8.length() - i9.length()) + (i9.length() - i10.length()) + (i10.length() - i11.length()) + (i11.length() - i12.length()) + (i12.length() - i13.length()) + (i13.length() - i14.length()) + (i14.length() - i15.length()) + (i15.length() - i16.length()) + (i16.length() - i17.length()) + (i17.length() - i18.length()) + (i18.length() - i19.length()),
{
    t.0.remaining_no_longer(i);
    t.1.remaining_no_longer(i1);
    t.2.remaining_no_longer(i2);
    t.3.remaining_no_longer(i3);
    t.4.remaining_no_longer(i4);
    t.5.remaining_no_longer(i5);
    t.6.remaining_no_longer(i6);
    t.7.remaining_no_longer(i7);
    t.8.remaining_no_longer(i8);
    t.9.remaining_no_longer(i9);
    t.10.remaining_no_longer(i10);
    t.11.remaining_no_longer(i11);
    t.12.remaining_no_longer(i12);
    t.13.remaining_no_longer(i13);
    t.14.remaining_no_longer(i14);
    t.15.remaining_no_longer(i15);
    t.16.remaining_no_longer(i16);
    t.17.remaining_no_longer(i17);
    t.18.remaining_no_longer(i18);
}

/// Order preservation for the 19-parser tuple: position `k` of the
/// product holds a value parser `k` produces when run alone on the
/// cursor left by parser `k - 1`.
pub proof fn lemma_tuple19_order<
    I: InputLength,
    E,
    FnA: Parser<I, E>,
    FnB: Parser<I, E>,
    FnC: Parser<I, E>,
    FnD: Parser<I, E>,
    FnE: Parser<I, E>,
    FnF: Parser<I, E>,
    FnG: Parser<I, E>,
    FnH: Parser<I, E>,
    FnI: Parser<I, E>,
    FnJ: Parser<I, E>,
    FnK: Parser<I, E>,
    FnL: Parser<I, E>,
    FnM: Parser<I, E>,
    FnN: Parser<I, E>,
    FnO: Parser<I, E>,
    FnP: Parser<I, E>,
    FnQ: Parser<I, E>,
    FnR: Parser<I, E>,
    FnS: Parser<I, E>,
>(
    t: (FnA, FnB, FnC, FnD, FnE, FnF, FnG, FnH, FnI, FnJ, FnK, FnL, FnM, FnN, FnO, FnP, FnQ, FnR, FnS),
    i: I,
    i1: I, i2: I, i3: I, i4: I, i5: I, i6: I, i7: I, i8: I, i9: I, i10: I, i11: I, i12: I, i13: I, i14: I, i15: I, i16: I, i17: I, i18: I,
    o: (FnA::Output, FnB::Output, FnC::Output, FnD::Output, FnE::Output, FnF::Output, FnG::Output, FnH::Output, FnI::Output, FnJ::Output, FnK::Output, FnL::Output, FnM::Output, FnN::Output, FnO::Output, FnP::Output, FnQ::Output, FnR::Output, FnS::Output),
)
    requires
        i1 == t.0.remaining(i),
        i2 == t.1.remaining(i1),
        i3 == t.2.remaining(i2),
        i4 == t.3.remaining(i3),
        i5 == t.4.remaining(i4),
        i6 == t.5.remaining(i5),
        i7 == t.6.remaining(i6),
        i8 == t.7.remaining(i7),
        i9 == t.8.remaining(i8),
        i10 == t.9.remaining(i9),
        i11 == t.10.remaining(i10),
        i12 == t.11.remaining(i11),
        i13 == t.12.remaining(i12),
        i14 == t.13.remaining(i13),
        i15 == t.14.remaining(i14),
        i16 == t.15.remaining(i15),
        i17 == t.16.remaining(i16),
        i18 == t.17.remaining(i17),
        t.produces(i, o),
    ensures
        t.0.produces(i, o.0),
        t.1.produces(i1, o.1),
        t.2.produces(i2, o.2),
        t.3.produces(i3, o.3),
        t.4.produces(i4, o.4),
        t.5.produces(i5, o.5),
        t.6.produces(i6, o.6),
        t.7.produces(i7, o.7),
        t.8.produces(i8, o.8),
        t.9.produces(i9, o.9),
        t.10.produces(i10, o.10),
        t.11.produces(i11, o.11),
        t.12.produces(i12, o.12),
        t.13.produces(i13, o.13),
        t.14.produces(i14, o.14),
        t.15.produces(i15, o.15),
        t.16.produces(i16, o.16),
        t.17.produces(i17, o.17),
        t.18.produces(i18, o.18),
{
}

/// Fail-fast for the 19-parser tuple: the first failing component
/// decides the outcome, which is forwarded unchanged; the `parse`
/// contract adds that the components after it are never run.
pub proof fn lemma_tuple19_fail_fast<
    I: InputLength,
    E,
    FnA: Parser<I, E>,
    FnB: Parser<I, E>,
    FnC: Parser<I, E>,
    FnD: Parser<I, E>,
    FnE: Parser<I, E>,
    FnF: Parser<I, E>,
    FnG: Parser<I, E>,
    FnH: Parser<I, E>,
    FnI: Parser<I, E>,
    FnJ: Parser<I, E>,
    FnK: Parser<I, E>,
    FnL: Parser<I, E>,
    FnM: Parser<I, E>,
    FnN: Parser<I, E>,
    FnO: Parser<I, E>,
    FnP: Parser<I, E>,
    FnQ: Parser<I, E>,
    FnR: Parser<I, E>,
    FnS: Parser<I, E>,
>(
    t: (FnA, FnB, FnC, FnD, FnE, FnF, FnG, FnH, FnI, FnJ, FnK, FnL, FnM, FnN, FnO, FnP, FnQ, FnR, FnS),
    i: I,
    i1: I, i2: I, i3: I, i4: I, i5: I, i6: I, i7: I, i8: I, i9: I, i10: I, i11: I, i12: I, i13: I, i14: I, i15: I, i16: I, i17: I, i18: I,
)
    requires
        i1 == t.0.remaining(i),
        i2 == t.1.remaining(i1),
        i3 == t.2.remaining(i2),
        i4 == t.3.remaining(i3),
        i5 == t.4.remaining(i4),
        i6 == t.5.remaining(i5),
        i7 == t.6.remaining(i6),
        i8 == t.7.remaining(i7),
        i9 == t.8.remaining(i8),
        i10 == t.9.remaining(i9),
        i11 == t.10.remaining(i10),
        i12 == t.11.remaining(i11),
        i13 == t.12.remaining(i12),
        i14 == t.13.remaining(i13),
        i15 == t.14.remaining(i14),
        i16 == t.15.remaining(i15),
        i17 == t.16.remaining(i16),
        i18 == t.17.remaining(i17),
    ensures
        !t.0.succeeds(i) ==> !t.succeeds(i) && t.failure(i) == t.0.failure(i),
        t.0.succeeds(i) && !t.1.succeeds(i1) ==> !t.succeeds(i) && t.failure(i) == t.1.failure(i1),
        t.0.succeeds(i) && t.1.succeeds(i1) && !t.2.succeeds(i2) ==> !t.succeeds(i) && t.failure(i) == t.2.failure(i2),
        t.0.succeeds(i) && t.1.succeeds(i1) && t.2.succeeds(i2) && !t.3.succeeds(i3) ==> !t.succeeds(i) && t.failure(i) == t.3.failure(i3),
        t.0.succeeds(i) && t.1.succeeds(i1) && t.2.succeeds(i2) && t.3.succeeds(i3) && !t.4.succeeds(i4) ==> !t.succeeds(i) && t.failure(i) == t.4.failure(i4),
        t.0.succeeds(i) && t.1.succeeds(i1) && t.2.succeeds(i2) && t.3.succeeds(i3) && t.4.succeeds(i4) && !t.5.succeeds(i5) ==> !t.succeeds(i) && t.failure(i) == t.5.failure(i5),
        t.0.succeeds(i) && t.1.succeeds(i1) && t.2.succeeds(i2) && t.3.succeeds(i3) && t.4.succeeds(i4) && t.5.succeeds(i5) && !t.6.succeeds(i6) ==> !t.succeeds(i) && t.failure(i) == t.6.failure(i6),
        t.0.succeeds(i) && t.1.succeeds(i1) && t.2.succeeds(i2) && t.3.succeeds(i3) && t.4.succeeds(i4) && t.5.succeeds(i5) && t.6.succeeds(i6) && !t.7.succeeds(i7) ==> !t.succeeds(i) && t.failure(i) == t.7.failure(i7),
        t.0.succeeds(i) && t.1.succeeds(i1) && t.2.succeeds(i2) && t.3.succeeds(i3) && t.4.succeeds(i4) && t.5.succeeds(i5) && t.6.succeeds(i6) && t.7.succeeds(i7) && !t.8.succeeds(i8) ==> !t.succeeds(i) && t.failure(i) == t.8.failure(i8),
        t.0.succeeds(i) && t.1.succeeds(i1) && t.2.succeeds(i2) && t.3.succeeds(i3) && t.4.succeeds(i4) && t.5.succeeds(i5) && t.6.succeeds(i6) && t.7.succeeds(i7) && t.8.succeeds(i8) && !t.9.succeeds(i9) ==> !t.succeeds(i) && t.failure(i) == t.9.failure(i9),
        t.0.succeeds(i) && t.1.succeeds(i1) && t.2.succeeds(i2) && t.3.succeeds(i3) && t.4.succeeds(i4) && t.5.succeeds(i5) && t.6.succeeds(i6) && t.7.succeeds(i7) && t.8.succeeds(i8) && t.9.succeeds(i9) && !t.10.succeeds(i10) ==> !t.succeeds(i) && t.failure(i) == t.10.failure(i10),
        t.0.succeeds(i) && t.1.succeeds(i1) && t.2.succeeds(i2) && t.3.succeeds(i3) && t.4.succeeds(i4) && t.5.succeeds(i5) && t.6.succeeds(i6) && t.7.succeeds(i7) && t.8.succeeds(i8) && t.9.succeeds(i9) && t.10.succeeds(i10) && !t.11.succeeds(i11) ==> !t.succeeds(i) && t.failure(i) == t.11.failure(i11),
        t.0.succeeds(i) && t.1.succeeds(i1) && t.2.succeeds(i2) && t.3.succeeds(i3) && t.4.succeeds(i4) && t.5.succeeds(i5) && t.6.succeeds(i6) && t.7.succeeds(i7) && t.8.succeeds(i8) && t.9.succeeds(i9) && t.10.succeeds(i10) && t.11.succeeds(i11) && !t.12.succeeds(i12) ==> !t.succeeds(i) && t.failure(i) == t.12.failure(i12),
        t.0.succeeds(i) && t.1.succeeds(i1) && t.2.succeeds(i2) && t.3.succeeds(i3) && t.4.succeeds(i4) && t.5.succeeds(i5) && t.6.succeeds(i6) && t.7.succeeds(i7) && t.8.succeeds(i8) && t.9.succeeds(i9) && t.10.succeeds(i10) && t.11.succeeds(i11) && t.12.succeeds(i12) && !t.13.succeeds(i13) ==> !t.succeeds(i) && t.failure(i) == t.13.failure(i13),
        t.0.succeeds(i) && t.1.succeeds(i1) && t.2.succeeds(i2) && t.3.succeeds(i3) && t.4.succeeds(i4) && t.5.succeeds(i5) && t.6.succeeds(i6) && t.7.succeeds(i7) && t.8.succeeds(i8) && t.9.succeeds(i9) && t.10.succeeds(i10) && t.11.succeeds(i11) && t.12.succeeds(i12) && t.13.succeeds(i13) && !t.14.succeeds(i14) ==> !t.succeeds(i) && t.failure(i) == t.14.failure(i14),
        t.0.succeeds(i) && t.1.succeeds(i1) && t.2.succeeds(i2) && t.3.succeeds(i3) && t.4.succeeds(i4) && t.5.succeeds(i5) && t.6.succeeds(i6) && t.7.succeeds(i7) && t.8.succeeds(i8) && t.9.succeeds(i9) && t.10.succeeds(i10) && t.11.succeeds(i11) && t.12.succeeds(i12) && t.13.succeeds(i13) && t.14.succeeds(i14) && !t.15.succeeds(i15) ==> !t.succeeds(i) && t.failure(i) == t.15.failure(i15),
        t.0.succeeds(i) && t.1.succeeds(i1) && t.2.succeeds(i2) && t.3.succeeds(i3) && t.4.succeeds(i4) && t.5.succeeds(i5) && t.6.succeeds(i6) && t.7.succeeds(i7) && t.8.succeeds(i8) && t.9.succeeds(i9) && t.10.succeeds(i10) && t.11.succeeds(i11) && t.12.succeeds(i12) && t.13.succeeds(i13) && t.14.succeeds(i14) && t.15.succeeds(i15) && !t.16.succeeds(i16) ==> !t.succeeds(i) && t.failure(i) == t.16.failure(i16),
        t.0.succeeds(i) && t.1.succeeds(i1) && t.2.succeeds(i2) && t.3.succeeds(i3) && t.4.succeeds(i4) && t.5.succeeds(i5) && t.6.succeeds(i6) && t.7.succeeds(i7) && t.8.succeeds(i8) && t.9.succeeds(i9) && t.10.succeeds(i10) && t.11.succeeds(i11) && t.12.succeeds(i12) && t.13.succeeds(i13) && t.14.succeeds(i14) && t.15.succeeds(i15) && t.16.succeeds(i16) && !t.17.succeeds(i17) ==> !t.succeeds(i) && t.failure(i) == t.17.failure(i17),
        t.0.succeeds(i) && t.1.succeeds(i1) && t.2.succeeds(i2) && t.3.succeeds(i3) && t.4.succeeds(i4) && t.5.succeeds(i5) && t.6.succeeds(i6) && t.7.succeeds(i7) && t.8.succeeds(i8) && t.9.succeeds(i9) && t.10.succeeds(i10) && t.11.succeeds(i11) && t.12.succeeds(i12) && t.13.succeeds(i13) && t.14.succeeds(i14) && t.15.succeeds(i15) && t.16.succeeds(i16) && t.17.succeeds(i17) && !t.18.succeeds(i18) ==> !t.succeeds(i) && t.failure(i) == t.18.failure(i18),
{
}

/// Consumption additivity for the 20-parser tuple: a successful run
/// consumes exactly the sum of what the components consume, each on the
/// cursor its predecessor left, and no component gives input back.
pub proof fn lemma_tuple20_consumption<
    I: InputLength,
    E,
    FnA: Parser<I, E>,
    FnB: Parser<I, E>,
    FnC: Parser<I, E>,
    FnD: Parser<I, E>,
    FnE: Parser<I, E>,
    FnF: Parser<I, E>,
    FnG: Parser<I, E>,
    FnH: Parser<I, E>,
    FnI: Parser<I, E>,
    FnJ: Parser<I, E>,
    FnK: Parser<I, E>,
    FnL: Parser<I, E>,
    FnM: Parser<I, E>,
    FnN: Parser<I, E>,
    FnO: Parser<I, E>,
    FnP: Parser<I, E>,
    FnQ: Parser<I, E>,
    FnR: Parser<I, E>,
    FnS: Parser<I, E>,
    FnT: Parser<I, E>,
>(
    t: (FnA, FnB, FnC, FnD, FnE, FnF, FnG, FnH, FnI, FnJ, FnK, FnL, FnM, FnN, FnO, FnP, FnQ, FnR, FnS, FnT),
    i: I,
    i1: I, i2: I, i3: I, i4: I, i5: I, i6: I, i7: I, i8: I, i9: I, i10: I, i11: I, i12: I, i13: I, i14: I, i15: I, i16: I, i17: I, i18: I, i19: I, i20: I,
)
    requires
        t.succeeds(i),
        i1 == t.0.remaining(i),
        i2 == t.1.remaining(i1),
        i3 == t.2.remaining(i2),
        i4 == t.3.remaining(i3),
        i5 == t.4.remaining(i4),
        i6 == t.5.remaining(i5),
        i7 == t.6.remaining(i6),
        i8 == t.7.remaining(i7),
        i9 == t.8.remaining(i8),
        i10 == t.9.remaining(i9),
        i11 == t.10.remaining(i10),
        i12 == t.11.remaining(i11),
        i13 == t.12.remaining(i12),
        i14 == t.13.remaining(i13),
        i15 == t.14.remaining(i14),
        i16 == t.15.remaining(i15),
        i17 == t.16.remaining(i16),
        i18 == t.17.remaining(i17),
        i19 == t.18.remaining(i18),
        i20 == t.19.remaining(i19),
    ensures
        i20 == t.remaining(i),
        i1.length() <= i.length(),
        i2.length() <= i1.length(),
        i3.length() <= i2.length(),
        i4.length() <= i3.length(),
        i5.length() <= i4.length(),
        i6.length() <= i5.length(),
        i7.length() <= i6.length(),
        i8.length() <= i7.length(),
        i9.length() <= i8.length(),
        i10.length() <= i9.length(),
        i11.length() <= i10.length(),
        i12.length() <= i11.length(),
        i13.length() <= i12.length(),
        i14.length() <= i13.length(),
        i15.length() <= i14.length(),
        i16.length() <= i15.length(),
        i17.length() <= i16.length(),
        i18.length() <= i17.length(),
        i19.length() <= i18.length(),
        i20.length() <= i19.length(),
        i.length() - i20.length() == (i.length() - i1.length()) + (i1.length() - i2.length()) + (i2.length() - i3.length()) + (i3.length() - i4.length()) + (i4.length() - i5.length()) + (i5.length() - i6.length()) + (i6.length() - i7.length()) + (i7.length() - i8.length()) + (i8.length() - i9.length()) + (i9.length() - i10.length()) + (i10.length() - i11.length()) + (i11.length() - i12.length()) + (i12.length() - i13.length()) + (i13.length() - i14.length()) + (i14.length() - i15.length()) + (i15.length() - i16.length()) + (i16.length() - i17.length()) + (i17.length() - i18.length()) + (i18.length() - i19.length()) + (i19.length() - i20.length()),
{
    t.0.remaining_no_longer(i);
    t.1.remaining_no_longer(i1);
    t.2.remaining_no_longer(i2);
    t.3.remaining_no_longer(i3);
    t.4.remaining_no_longer(i4);
    t.5.remaining_no_longer(i5);
    t.6.remaining_no_longer(i6);
    t.7.remaining_no_longer(i7);
    t.8.remaining_no_longer(i8);
    t.9.remaining_no_longer(i9);
    t.10.remaining_no_longer(i10);
    t.11.remaining_no_longer(i11);
    t.12.remaining_no_longer(i12);
    t.13.remaining_no_longer(i13);
    t.14.remaining_no_longer(i14);
    t.15.remaining_no_longer(i15);
    t.16.remaining_no_longer(i16);
    t.17.remaining_no_longer(i17);
    t.18.remaining_no_longer(i18);
    t.19.remaining_no_longer(i19);
}

/// Order preservation for the 20-parser tuple: position `k` of the
/// product holds a value parser `k` produces when run alone on the
/// cursor left by parser `k - 1`.
pub proof fn lemma_tuple20_order<
    I: InputLength,
    E,
    FnA: Parser<I, E>,
    FnB: Parser<I, E>,
    FnC: Parser<I, E>,
    FnD: Parser<I, E>,
    FnE: Parser<I, E>,
    FnF: Parser<I, E>,
    FnG: Parser<I, E>,
    FnH: Parser<I, E>,
    FnI: Parser<I, E>,
    FnJ: Parser<I, E>,
    FnK: Parser<I, E>,
    FnL: Parser<I, E>,
    FnM: Parser<I, E>,
    FnN: Parser<I, E>,
    FnO: Parser<I, E>,
    FnP: Parser<I, E>,
    FnQ: Parser<I, E>,
    FnR: Parser<I, E>,
    FnS: Parser<I, E>,
    FnT: Parser<I, E>,
>(
    t: (FnA, FnB, FnC, FnD, FnE, FnF, FnG, FnH, FnI, FnJ, FnK, FnL, FnM, FnN, FnO, FnP, FnQ, FnR, FnS, FnT),
    i: I,
    i1: I, i2: I, i3: I, i4: I, i5: I, i6: I, i7: I, i8: I, i9: I, i10: I, i11: I, i12: I, i13: I, i14: I, i15: I, i16: I, i17: I, i18: I, i19: I,
    o: (FnA::Output, FnB::Output, FnC::Output, FnD::Output, FnE::Output, FnF::Output, FnG::Output, FnH::Output, FnI::Output, FnJ::Output, FnK::Output, FnL::Output, FnM::Output, FnN::Output, FnO::Output, FnP::Output, FnQ::Output, FnR::Output, FnS::Output, FnT::Output),
)
    requires
        i1 == t.0.remaining(i),
        i2 == t.1.remaining(i1),
        i3 == t.2.remaining(i2),
        i4 == t.3.remaining(i3),
        i5 == t.4.remaining(i4),
        i6 == t.5.remaining(i5),
        i7 == t.6.remaining(i6),
        i8 == t.7.remaining(i7),
        i9 == t.8.remaining(i8),
        i10 == t.9.remaining(i9),
        i11 == t.10.remaining(i10),
        i12 == t.11.remaining(i11),
        i13 == t.12.remaining(i12),
        i14 == t.13.remaining(i13),
        i15 == t.14.remaining(i14),
        i16 == t.15.remaining(i15),
        i17 == t.16.remaining(i16),
        i18 == t.17.remaining(i17),
        i19 == t.18.remaining(i18),
        t.produces(i, o),
    ensures
        t.0.produces(i, o.0),
        t.1.produces(i1, o.1),
        t.2.produces(i2, o.2),
        t.3.produces(i3, o.3),
        t.4.produces(i4, o.4),
        t.5.produces(i5, o.5),
        t.6.produces(i6, o.6),
        t.7.produces(i7, o.7),
        t.8.produces(i8, o.8),
        t.9.produces(i9, o.9),
        t.10.produces(i10, o.10),
        t.11.produces(i11, o.11),
        t.12.produces(i12, o.12),
        t.13.produces(i13, o.13),
        t.14.produces(i14, o.14),
        t.15.produces(i15, o.15),
        t.16.produces(i16, o.16),
        t.17.produces(i17, o.17),
        t.18.produces(i18, o.18),
        t.19.produces(i19, o.19),
{
}

/// Fail-fast for the 20-parser tuple: the first failing component
/// decides the outcome, which is forwarded unchanged; the `parse`
/// contract adds that the components after it are never run.
pub proof fn lemma_tuple20_fail_fast<
    I: InputLength,
    E,
    FnA: Parser<I, E>,
    FnB: Parser<I, E>,
    FnC: Parser<I, E>,
    FnD: Parser<I, E>,
    FnE: Parser<I, E>,
    FnF: Parser<I, E>,
    FnG: Parser<I, E>,
    FnH: Parser<I, E>,
    FnI: Parser<I, E>,
    FnJ: Parser<I, E>,
    FnK: Parser<I, E>,
    FnL: Parser<I, E>,
    FnM: Parser<I, E>,
    FnN: Parser<I, E>,
    FnO: Parser<I, E>,
    FnP: Parser<I, E>,
    FnQ: Parser<I, E>,
    FnR: Parser<I, E>,
    FnS: Parser<I, E>,
    FnT: Parser<I, E>,
>(
    t: (FnA, FnB, FnC, FnD, FnE, FnF, FnG, FnH, FnI, FnJ, FnK, FnL, FnM, FnN, FnO, FnP, FnQ, FnR, FnS, FnT),
    i: I,
    i1: I, i2: I, i3: I, i4: I, i5: I, i6: I, i7: I, i8: I, i9: I, i10: I, i11: I, i12: I, i13: I, i14: I, i15: I, i16: I, i17: I, i18: I, i19: I,
)
    requires
        i1 == t.0.remaining(i),
        i2 == t.1.remaining(i1),
        i3 == t.2.remaining(i2),
        i4 == t.3.remaining(i3),
        i5 == t.4.remaining(i4),
        i6 == t.5.remaining(i5),
        i7 == t.6.remaining(i6),
        i8 == t.7.remaining(i7),
        i9 == t.8.remaining(i8),
        i10 == t.9.remaining(i9),
        i11 == t.10.remaining(i10),
        i12 == t.11.remaining(i11),
        i13 == t.12.remaining(i12),
        i14 == t.13.remaining(i13),
        i15 == t.14.remaining(i14),
        i16 == t.15.remaining(i15),
        i17 == t.16.remaining(i16),
        i18 == t.17.remaining(i17),
        i19 == t.18.remaining(i18),
    ensures
        !t.0.succeeds(i) ==> !t.succeeds(i) && t.failure(i) == t.0.failure(i),
        t.0.succeeds(i) && !t.1.succeeds(i1) ==> !t.succeeds(i) && t.failure(i) == t.1.failure(i1),
        t.0.succeeds(i) && t.1.succeeds(i1) && !t.2.succeeds(i2) ==> !t.succeeds(i) && t.failure(i) == t.2.failure(i2),
        t.0.succeeds(i) && t.1.succeeds(i1) && t.2.succeeds(i2) && !t.3.succeeds(i3) ==> !t.succeeds(i) && t.failure(i) == t.3.failure(i3),
        t.0.succeeds(i) && t.1.succeeds(i1) && t.2.succeeds(i2) && t.3.succeeds(i3) && !t.4.succeeds(i4) ==> !t.succeeds(i) && t.failure(i) == t.4.failure(i4),
        t.0.succeeds(i) && t.1.succeeds(i1) && t.2.succeeds(i2) && t.3.succeeds(i3) && t.4.succeeds(i4) && !t.5.succeeds(i5) ==> !t.succeeds(i) && t.failure(i) == t.5.failure(i5),
        t.0.succeeds(i) && t.1.succeeds(i1) && t.2.succeeds(i2) && t.3.succeeds(i3) && t.4.succeeds(i4) && t.5.succeeds(i5) && !t.6.succeeds(i6) ==> !t.succeeds(i) && t.failure(i) == t.6.failure(i6),
        t.0.succeeds(i) && t.1.succeeds(i1) && t.2.succeeds(i2) && t.3.succeeds(i3) && t.4.succeeds(i4) && t.5.succeeds(i5) && t.6.succeeds(i6) && !t.7.succeeds(i7) ==> !t.succeeds(i) && t.failure(i) == t.7.failure(i7),
        t.0.succeeds(i) && t.1.succeeds(i1) && t.2.succeeds(i2) && t.3.succeeds(i3) && t.4.succeeds(i4) && t.5.succeeds(i5) && t.6.succeeds(i6) && t.7.succeeds(i7) && !t.8.succeeds(i8) ==> !t.succeeds(i) && t.failure(i) == t.8.failure(i8),
        t.0.succeeds(i) && t.1.succeeds(i1) && t.2.succeeds(i2) && t.3.succeeds(i3) && t.4.succeeds(i4) && t.5.succeeds(i5) && t.6.succeeds(i6) && t.7.succeeds(i7) && t.8.succeeds(i8) && !t.9.succeeds(i9) ==> !t.succeeds(i) && t.failure(i) == t.9.failure(i9),
        t.0.succeeds(i) && t.1.succeeds(i1) && t.2.succeeds(i2) && t.3.succeeds(i3) && t.4.succeeds(i4) && t.5.succeeds(i5) && t.6.succeeds(i6) && t.7.succeeds(i7) && t.8.succeeds(i8) && t.9.succeeds(i9) && !t.10.succeeds(i10) ==> !t.succeeds(i) && t.failure(i) == t.10.failure(i10),
        t.0.succeeds(i) && t.1.succeeds(i1) && t.2.succeeds(i2) && t.3.succeeds(i3) && t.4.succeeds(i4) && t.5.succeeds(i5) && t.6.succeeds(i6) && t.7.succeeds(i7) && t.8.succeeds(i8) && t.9.succeeds(i9) && t.10.succeeds(i10) && !t.11.succeeds(i11) ==> !t.succeeds(i) && t.failure(i) == t.11.failure(i11),
        t.0.succeeds(i) && t.1.succeeds(i1) && t.2.succeeds(i2) && t.3.succeeds(i3) && t.4.succeeds(i4) && t.5.succeeds(i5) && t.6.succeeds(i6) && t.7.succeeds(i7) && t.8.succeeds(i8) && t.9.succeeds(i9) && t.10.succeeds(i10) && t.11.succeeds(i11) && !t.12.succeeds(i12) ==> !t.succeeds(i) && t.failure(i) == t.12.failure(i12),
        t.0.succeeds(i) && t.1.succeeds(i1) && t.2.succeeds(i2) && t.3.succeeds(i3) && t.4.succeeds(i4) && t.5.succeeds(i5) && t.6.succeeds(i6) && t.7.succeeds(i7) && t.8.succeeds(i8) && t.9.succeeds(i9) && t.10.succeeds(i10) && t.11.succeeds(i11) && t.12.succeeds(i12) && !t.13.succeeds(i13) ==> !t.succeeds(i) && t.failure(i) == t.13.failure(i13),
        t.0.succeeds(i) && t.1.succeeds(i1) && t.2.succeeds(i2) && t.3.succeeds(i3) && t.4.succeeds(i4) && t.5.succeeds(i5) && t.6.succeeds(i6) && t.7.succeeds(i7) && t.8.succeeds(i8) && t.9.succeeds(i9) && t.10.succeeds(i10) && t.11.succeeds(i11) && t.12.succeeds(i12) && t.13.succeeds(i13) && !t.14.succeeds(i14) ==> !t.succeeds(i) && t.failure(i) == t.14.failure(i14),
        t.0.succeeds(i) && t.1.succeeds(i1) && t.2.succeeds(i2) && t.3.succeeds(i3) && t.4.succeeds(i4) && t.5.succeeds(i5) && t.6.succeeds(i6) && t.7.succeeds(i7) && t.8.succeeds(i8) && t.9.succeeds(i9) && t.10.succeeds(i10) && t.11.succeeds(i11) && t.12.succeeds(i12) && t.13.succeeds(i13) && t.14.succeeds(i14) && !t.15.succeeds(i15) ==> !t.succeeds(i) && t.failure(i) == t.15.failure(i15),
        t.0.succeeds(i) && t.1.succeeds(i1) && t.2.succeeds(i2) && t.3.succeeds(i3) && t.4.succeeds(i4) && t.5.succeeds(i5) && t.6.succeeds(i6) && t.7.succeeds(i7) && t.8.succeeds(i8) && t.9.succeeds(i9) && t.10.succeeds(i10) && t.11.succeeds(i11) && t.12.succeeds(i12) && t.13.succeeds(i13) && t.14.succeeds(i14) && t.15.succeeds(i15) && !t.16.succeeds(i16) ==> !t.succeeds(i) && t.failure(i) == t.16.failure(i16),
        t.0.succeeds(i) && t.1.succeeds(i1) && t.2.succeeds(i2) && t.3.succeeds(i3) && t.4.succeeds(i4) && t.5.succeeds(i5) && t.6.succeeds(i6) && t.7.succeeds(i7) && t.8.succeeds(i8) && t.9.succeeds(i9) && t.10.succeeds(i10) && t.11.succeeds(i11) && t.12.succeeds(i12) && t.13.succeeds(i13) && t.14.succeeds(i14) && t.15.succeeds(i15) && t.16.succeeds(i16) && !t.17.succeeds(i17) ==> !t.succeeds(i) && t.failure(i) == t.17.failure(i17),
        t.0.succeeds(i) && t.1.succeeds(i1) && t.2.succeeds(i2) && t.3.succeeds(i3) && t.4.succeeds(i4) && t.5.succeeds(i5) && t.6.succeeds(i6) && t.7.succeeds(i7) && t.8.succeeds(i8) && t.9.succeeds(i9) && t.10.succeeds(i10) && t.11.succeeds(i11) && t.12.succeeds(i12) && t.13.succeeds(i13) && t.14.succeeds(i14) && t.15.succeeds(i15) && t.16.succeeds(i16) && t.17.succeeds(i17) && !t.18.succeeds(i18) ==> !t.succeeds(i) && t.failure(i) == t.18.failure(i18),
        t.0.succeeds(i) && t.1.succeeds(i1) && t.2.succeeds(i2) && t.3.succeeds(i3) && t.4.succeeds(i4) && t.5.succeeds(i5) && t.6.succeeds(i6) && t.7.succeeds(i7) && t.8.succeeds(i8) && t.9.succeeds(i9) && t.10.succeeds(i10) && t.11.succeeds(i11) && t.12.succeeds(i12) && t.13.succeeds(i13) && t.14.succeeds(i14) && t.15.succeeds(i15) && t.16.succeeds(i16) && t.17.succeeds(i17) && t.18.succeeds(i18) && !t.19.succeeds(i19) ==> !t.succeeds(i) && t.failure(i) == t.19.failure(i19),
{
}

/// Consumption additivity for the 21-parser tuple: a successful run
/// consumes exactly the sum of what the components consume, each on the
/// cursor its predecessor left, and no component gives input back.
pub proof fn lemma_tuple21_consumption<
    I: InputLength,
    E,
    FnA: Parser<I, E>,
    FnB: Parser<I, E>,
    FnC: Parser<I, E>,
    FnD: Parser<I, E>,
    FnE: Parser<I, E>,
    FnF: Parser<I, E>,
    FnG: Parser<I, E>,
    FnH: Parser<I, E>,
    FnI: Parser<I, E>,
    FnJ: Parser<I, E>,
    FnK: Parser<I, E>,
    FnL: Parser<I, E>,
    FnM: Parser<I, E>,
    FnN: Parser<I, E>,
    FnO: Parser<I, E>,
    FnP: Parser<I, E>,
    FnQ: Parser<I, E>,
    FnR: Parser<I, E>,
    FnS: Parser<I, E>,
    FnT: Parser<I, E>,
    FnU: Parser<I, E>,
>(
    t: (FnA, FnB, FnC, FnD, FnE, FnF, FnG, FnH, FnI, FnJ, FnK, FnL, FnM, FnN, FnO, FnP, FnQ, FnR, FnS, FnT, FnU),
    i: I,
    i1: I, i2: I, i3: I, i4: I, i5: I, i6: I, i7: I, i8: I, i9: I, i10: I, i11: I, i12: I, i13: I, i14: I, i15: I, i16: I, i17: I, i18: I, i19: I, i20: I, i21: I,
)
    requires
        t.succeeds(i),
        i1 == t.0.remaining(i),
        i2 == t.1.remaining(i1),
        i3 == t.2.remaining(i2),
        i4 == t.3.remaining(i3),
        i5 == t.4.remaining(i4),
        i6 == t.5.remaining(i5),
        i7 == t.6.remaining(i6),
        i8 == t.7.remaining(i7),
        i9 == t.8.remaining(i8),
        i10 == t.9.remaining(i9),
        i11 == t.10.remaining(i10),
        i12 == t.11.remaining(i11),
        i13 == t.12.remaining(i12),
        i14 == t.13.remaining(i13),
        i15 == t.14.remaining(i14),
        i16 == t.15.remaining(i15),
        i17 == t.16.remaining(i16),
        i18 == t.17.remaining(i17),
        i19 == t.18.remaining(i18),
        i20 == t.19.remaining(i19),
        i21 == t.20.remaining(i20),
    ensures
        i21 == t.remaining(i),
        i1.length() <= i.length(),
        i2.length() <= i1.length(),
        i3.length() <= i2.length(),
        i4.length() <= i3.length(),
        i5.length() <= i4.length(),
        i6.length() <= i5.length(),
        i7.length() <= i6.length(),
        i8.length() <= i7.length(),
        i9.length() <= i8.length(),
        i10.length() <= i9.length(),
        i11.length() <= i10.length(),
        i12.length() <= i11.length(),
        i13.length() <= i12.length(),
        i14.length() <= i13.length(),
        i15.length() <= i14.length(),
        i16.length() <= i15.length(),
        i17.length() <= i16.length(),
        i18.length() <= i17.length(),
        i19.length() <= i18.length(),
        i20.length() <= i19.length(),
        i21.length() <= i20.length(),
        i.length() - i21.length() == (i.length() - i1.length()) + (i1.length() - i2.length()) + (i2.length() - i3.length()) + (i3.length() - i4.length()) + (i4.length() - i5.length()) + (i5.length() - i6.length()) + (i6.length() - i7.length()) + (i7.length() - i8.length()) + (i8.length() - i9.length()) + (i9.length() - i10.length()) + (i10.length() - i11.length()) + (i11.length() - i12.length()) + (i12.length() - i13.length()) + (i13.length() - i14.length()) + (i14.length() - i15.length()) + (i15.length() - i16.length()) + (i16.length() - i17.length()) + (i17.length() - i18.length()) + (i18.length() - i19.length()) + (i19.length() - i20.length()) + (i20.length() - i21.length()),
{
    t.0.remaining_no_longer(i);
    t.1.remaining_no_longer(i1);
    t.2.remaining_no_longer(i2);
    t.3.remaining_no_longer(i3);
    t.4.remaining_no_longer(i4);
    t.5.remaining_no_longer(i5);
    t.6.remaining_no_longer(i6);
    t.7.remaining_no_longer(i7);
    t.8.remaining_no_longer(i8);
    t.9.remaining_no_longer(i9);
    t.10.remaining_no_longer(i10);
    t.11.remaining_no_longer(i11);
    t.12.remaining_no_longer(i12);
    t.13.remaining_no_longer(i13);
    t.14.remaining_no_longer(i14);
    t.15.remaining_no_longer(i15);
    t.16.remaining_no_longer(i16);
    t.17.remaining_no_longer(i17);
    t.18.remaining_no_longer(i18);
    t.19.remaining_no_longer(i19);
    t.20.remaining_no_longer(i20);
}

/// Order preservation for the 21-parser tuple: position `k` of the
/// product holds a value parser `k` produces when run alone on the
/// cursor left by parser `k - 1`.
pub proof fn lemma_tuple21_order<
    I: InputLength,
    E,
    FnA: Parser<I, E>,
    FnB: Parser<I, E>,
    FnC: Parser<I, E>,
    FnD: Parser<I, E>,
    FnE: Parser<I, E>,
    FnF: Parser<I, E>,
    FnG: Parser<I, E>,
    FnH: Parser<I, E>,
    FnI: Parser<I, E>,
    FnJ: Parser<I, E>,
    FnK: Parser<I, E>,
    FnL: Parser<I, E>,
    FnM: Parser<I, E>,
    FnN: Parser<I, E>,
    FnO: Parser<I, E>,
    FnP: Parser<I, E>,
    FnQ: Parser<I, E>,
    FnR: Parser<I, E>,
    FnS: Parser<I, E>,
    FnT: Parser<I, E>,
    FnU: Parser<I, E>,
>(
    t: (FnA, FnB, FnC, FnD, FnE, FnF, FnG, FnH, FnI, FnJ, FnK, FnL, FnM, FnN, FnO, FnP, FnQ, FnR, FnS, FnT, FnU),
    i: I,
    i1: I, i2: I, i3: I, i4: I, i5: I, i6: I, i7: I, i8: I, i9: I, i10: I, i11: I, i12: I, i13: I, i14: I, i15: I, i16: I, i17: I, i18: I, i19: I, i20: I,
    o: (FnA::Output, FnB::Output, FnC::Output, FnD::Output, FnE::Output, FnF::Output, FnG::Output, FnH::Output, FnI::Output, FnJ::Output, FnK::Output, FnL::Output, FnM::Output, FnN::Output, FnO::Output, FnP::Output, FnQ::Output, FnR::Output, FnS::Output, FnT::Output, FnU::Output),
)
    requires
        i1 == t.0.remaining(i),
        i2 == t.1.remaining(i1),
        i3 == t.2.remaining(i2),
        i4 == t.3.remaining(i3),
        i5 == t.4.remaining(i4),
        i6 == t.5.remaining(i5),
        i7 == t.6.remaining(i6),
        i8 == t.7.remaining(i7),
        i9 == t.8.remaining(i8),
        i10 == t.9.remaining(i9),
        i11 == t.10.remaining(i10),
        i12 == t.11.remaining(i11),
        i13 == t.12.remaining(i12),
        i14 == t.13.remaining(i13),
        i15 == t.14.remaining(i14),
        i16 == t.15.remaining(i15),
        i17 == t.16.remaining(i16),
        i18 == t.17.remaining(i17),
        i19 == t.18.remaining(i18),
        i20 == t.19.remaining(i19),
        t.produces(i, o),
    ensures
        t.0.produces(i, o.0),
        t.1.produces(i1, o.1),
        t.2.produces(i2, o.2),
        t.3.produces(i3, o.3),
        t.4.produces(i4, o.4),
        t.5.produces(i5, o.5),
        t.6.produces(i6, o.6),
        t.7.produces(i7, o.7),
        t.8.produces(i8, o.8),
        t.9.produces(i9, o.9),
        t.10.produces(i10, o.10),
        t.11.produces(i11, o.11),
        t.12.produces(i12, o.12),
        t.13.produces(i13, o.13),
        t.14.produces(i14, o.14),
        t.15.produces(i15, o.15),
        t.16.produces(i16, o.16),
        t.17.produces(i17, o.17),
        t.18.produces(i18, o.18),
        t.19.produces(i19, o.19),
        t.20.produces(i20, o.20),
{
}

/// Fail-fast for the 21-parser tuple: the first failing component
/// decides the outcome, which is forwarded unchanged; the `parse`
/// contract adds that the components after it are never run.
pub proof fn lemma_tuple21_fail_fast<
    I: InputLength,
    E,
    FnA: Parser<I, E>,
    FnB: Parser<I, E>,
    FnC: Parser<I, E>,
    FnD: Parser<I, E>,
    FnE: Parser<I, E>,
    FnF: Parser<I, E>,
    FnG: Parser<I, E>,
    FnH: Parser<I, E>,
    FnI: Parser<I, E>,
    FnJ: Parser<I, E>,
    FnK: Parser<I, E>,
    FnL: Parser<I, E>,
    FnM: Parser<I, E>,
    FnN: Parser<I, E>,
    FnO: Parser<I, E>,
    FnP: Parser<I, E>,
    FnQ: Parser<I, E>,
    FnR: Parser<I, E>,
    FnS: Parser<I, E>,
    FnT: Parser<I, E>,
    FnU: Parser<I, E>,
>(
    t: (FnA, FnB, FnC, FnD, FnE, FnF, FnG, FnH, FnI, FnJ, FnK, FnL, FnM, FnN, FnO, FnP, FnQ, FnR, FnS, FnT, FnU),
    i: I,
    i1: I, i2: I, i3: I, i4: I, i5: I, i6: I, i7: I, i8: I, i9: I, i10: I, i11: I, i12: I, i13: I, i14: I, i15: I, i16: I, i17: I, i18: I, i19: I, i20: I,
)
    requires
        i1 == t.0.remaining(i),
        i2 == t.1.remaining(i1),
        i3 == t.2.remaining(i2),
        i4 == t.3.remaining(i3),
        i5 == t.4.remaining(i4),
        i6 == t.5.remaining(i5),
        i7 == t.6.remaining(i6),
        i8 == t.7.remaining(i7),
        i9 == t.8.remaining(i8),
        i10 == t.9.remaining(i9),
        i11 == t.10.remaining(i10),
        i12 == t.11.remaining(i11),
        i13 == t.12.remaining(i12),
        i14 == t.13.remaining(i13),
        i15 == t.14.remaining(i14),
        i16 == t.15.remaining(i15),
        i17 == t.16.remaining(i16),
        i18 == t.17.remaining(i17),
        i19 == t.18.remaining(i18),
        i20 == t.19.remaining(i19),
    ensures
        !t.0.succeeds(i) ==> !t.succeeds(i) && t.failure(i) == t.0.failure(i),
        t.0.succeeds(i) && !t.1.succeeds(i1) ==> !t.succeeds(i) && t.failure(i) == t.1.failure(i1),
        t.0.succeeds(i) && t.1.succeeds(i1) && !t.2.succeeds(i2) ==> !t.succeeds(i) && t.failure(i) == t.2.failure(i2),
        t.0.succeeds(i) && t.1.succeeds(i1) && t.2.succeeds(i2) && !t.3.succeeds(i3) ==> !t.succeeds(i) && t.failure(i) == t.3.failure(i3),
        t.0.succeeds(i) && t.1.succeeds(i1) && t.2.succeeds(i2) && t.3.succeeds(i3) && !t.4.succeeds(i4) ==> !t.succeeds(i) && t.failure(i) == t.4.failure(i4),
        t.0.succeeds(i) && t.1.succeeds(i1) && t.2.succeeds(i2) && t.3.succeeds(i3) && t.4.succeeds(i4) && !t.5.succeeds(i5) ==> !t.succeeds(i) && t.failure(i) == t.5.failure(i5),
        t.0.succeeds(i) && t.1.succeeds(i1) && t.2.succeeds(i2) && t.3.succeeds(i3) && t.4.succeeds(i4) && t.5.succeeds(i5) && !t.6.succeeds(i6) ==> !t.succeeds(i) && t.failure(i) == t.6.failure(i6),
        t.0.succeeds(i) && t.1.succeeds(i1) && t.2.succeeds(i2) && t.3.succeeds(i3) && t.4.succeeds(i4) && t.5.succeeds(i5) && t.6.succeeds(i6) && !t.7.succeeds(i7) ==> !t.succeeds(i) && t.failure(i) == t.7.failure(i7),
        t.0.succeeds(i) && t.1.succeeds(i1) && t.2.succeeds(i2) && t.3.succeeds(i3) && t.4.succeeds(i4) && t.5.succeeds(i5) && t.6.succeeds(i6) && t.7.succeeds(i7) && !t.8.succeeds(i8) ==> !t.succeeds(i) && t.failure(i) == t.8.failure(i8),
        t.0.succeeds(i) && t.1.succeeds(i1) && t.2.succeeds(i2) && t.3.succeeds(i3) && t.4.succeeds(i4) && t.5.succeeds(i5) && t.6.succeeds(i6) && t.7.succeeds(i7) && t.8.succeeds(i8) && !t.9.succeeds(i9) ==> !t.succeeds(i) && t.failure(i) == t.9.failure(i9),
        t.0.succeeds(i) && t.1.succeeds(i1) && t.2.succeeds(i2) && t.3.succeeds(i3) && t.4.succeeds(i4) && t.5.succeeds(i5) && t.6.succeeds(i6) && t.7.succeeds(i7) && t.8.succeeds(i8) && t.9.succeeds(i9) && !t.10.succeeds(i10) ==> !t.succeeds(i) && t.failure(i) == t.10.failure(i10),
        t.0.succeeds(i) && t.1.succeeds(i1) && t.2.succeeds(i2) && t.3.succeeds(i3) && t.4.succeeds(i4) && t.5.succeeds(i5) && t.6.succeeds(i6) && t.7.succeeds(i7) && t.8.succeeds(i8) && t.9.succeeds(i9) && t.10.succeeds(i10) && !t.11.succeeds(i11) ==> !t.succeeds(i) && t.failure(i) == t.11.failure(i11),
        t.0.succeeds(i) && t.1.succeeds(i1) && t.2.succeeds(i2) && t.3.succeeds(i3) && t.4.succeeds(i4) && t.5.succeeds(i5) && t.6.succeeds(i6) && t.7.succeeds(i7) && t.8.succeeds(i8) && t.9.succeeds(i9) && t.10.succeeds(i10) && t.11.succeeds(i11) && !t.12.succeeds(i12) ==> !t.succeeds(i) && t.failure(i) == t.12.failure(i12),
        t.0.succeeds(i) && t.1.succeeds(i1) && t.2.succeeds(i2) && t.3.succeeds(i3) && t.4.succeeds(i4) && t.5.succeeds(i5) && t.6.succeeds(i6) && t.7.succeeds(i7) && t.8.succeeds(i8) && t.9.succeeds(i9) && t.10.succeeds(i10) && t.11.succeeds(i11) && t.12.succeeds(i12) && !t.13.succeeds(i13) ==> !t.succeeds(i) && t.failure(i) == t.13.failure(i13),
        t.0.succeeds(i) && t.1.succeeds(i1) && t.2.succeeds(i2) && t.3.succeeds(i3) && t.4.succeeds(i4) && t.5.succeeds(i5) && t.6.succeeds(i6) && t.7.succeeds(i7) && t.8.succeeds(i8) && t.9.succeeds(i9) && t.10.succeeds(i10) && t.11.succeeds(i11) && t.12.succeeds(i12) && t.13.succeeds(i13) && !t.14.succeeds(i14) ==> !t.succeeds(i) && t.failure(i) == t.14.failure(i14),
        t.0.succeeds(i) && t.1.succeeds(i1) && t.2.succeeds(i2) && t.3.succeeds(i3) && t.4.succeeds(i4) && t.5.succeeds(i5) && t.6.succeeds(i6) && t.7.succeeds(i7) && t.8.succeeds(i8) && t.9.succeeds(i9) && t.10.succeeds(i10) && t.11.succeeds(i11) && t.12.succeeds(i12) && t.13.succeeds(i13) && t.14.succeeds(i14) && !t.15.succeeds(i15) ==> !t.succeeds(i) && t.failure(i) == t.15.failure(i15),
        t.0.succeeds(i) && t.1.succeeds(i1) && t.2.succeeds(i2) && t.3.succeeds(i3) && t.4.succeeds(i4) && t.5.succeeds(i5) && t.6.succeeds(i6) && t.7.succeeds(i7) && t.8.succeeds(i8) && t.9.succeeds(i9) && t.10.succeeds(i10) && t.11.succeeds(i11) && t.12.succeeds(i12) && t.13.succeeds(i13) && t.14.succeeds(i14) && t.15.succeeds(i15) && !t.16.succeeds(i16) ==> !t.succeeds(i) && t.failure(i) == t.16.failure(i16),
        t.0.succeeds(i) && t.1.succeeds(i1) && t.2.succeeds(i2) && t.3.succeeds(i3) && t.4.succeeds(i4) && t.5.succeeds(i5) && t.6.succeeds(i6) && t.7.succeeds(i7) && t.8.succeeds(i8) && t.9.succeeds(i9) && t.10.succeeds(i10) && t.11.succeeds(i11) && t.12.succeeds(i12) && t.13.succeeds(i13) && t.14.succeeds(i14) && t.15.succeeds(i15) && t.16.succeeds(i16) && !t.17.succeeds(i17) ==> !t.succeeds(i) && t.failure(i) == t.17.failure(i17),
        t.0.succeeds(i) && t.1.succeeds(i1) && t.2.succeeds(i2) && t.3.succeeds(i3) && t.4.succeeds(i4) && t.5.succeeds(i5) && t.6.succeeds(i6) && t.7.succeeds(i7) && t.8.succeeds(i8) && t.9.succeeds(i9) && t.10.succeeds(i10) && t.11.succeeds(i11) && t.12.succeeds(i12) && t.13.succeeds(i13) && t.14.succeeds(i14) && t.15.succeeds(i15) && t.16.succeeds(i16) && t.17.succeeds(i17) && !t.18.succeeds(i18) ==> !t.succeeds(i) && t.failure(i) == t.18.failure(i18),
        t.0.succeeds(i) && t.1.succeeds(i1) && t.2.succeeds(i2) && t.3.succeeds(i3) && t.4.succeeds(i4) && t.5.succeeds(i5) && t.6.succeeds(i6) && t.7.succeeds(i7) && t.8.succeeds(i8) && t.9.succeeds(i9) && t.10.succeeds(i10) && t.11.succeeds(i11) && t.12.succeeds(i12) && t.13.succeeds(i13) && t.14.succeeds(i14) && t.15.succeeds(i15) && t.16.succeeds(i16) && t.17.succeeds(i17) && t.18.succeeds(i18) && !t.19.succeeds(i19) ==> !t.succeeds(i) && t.failure(i) == t.19.failure(i19),
        t.0.succeeds(i) && t.1.succeeds(i1) && t.2.succeeds(i2) && t.3.succeeds(i3) && t.4.succeeds(i4) && t.5.succeeds(i5) && t.6.succeeds(i6) && t.7.succeeds(i7) && t.8.succeeds(i8) && t.9.succeeds(i9) && t.10.succeeds(i10) && t.11.succeeds(i11) && t.12.succeeds(i12) && t.13.succeeds(i13) && t.14.succeeds(i14) && t.15.succeeds(i15) && t.16.succeeds(i16) && t.17.succeeds(i17) && t.18.succeeds(i18) && t.19.succeeds(i19) && !t.20.succeeds(i20) ==> !t.succeeds(i) && t.failure(i) == t.20.failure(i20),
{
}

} // verus!
