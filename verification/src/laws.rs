//! The laws the sequencing layer obeys, stated once for all component
//! parsers and proved from the combinators' own contracts.
//!
//! The matching laws for the n-ary tuple mechanism stand beside its
//! per-arity implementations in [`crate::tuple`].

use vstd::prelude::*;

use crate::parser::InputLength;
use crate::parser::Parser;
use crate::sequence::Delimited;
use crate::sequence::Pair;
use crate::sequence::Preceded;
use crate::sequence::SeparatedPair;
use crate::sequence::Terminated;
use crate::tuple::Tuple;

verus! {

/// Consumption additivity: on a successful run, what a pair consumes from
/// the input is exactly the sum of what its two components consume, each
/// on the cursor its predecessor left, and no component gives input back.
pub proof fn lemma_pair_consumption<I: InputLength, E, F: Parser<I, E>, G: Parser<I, E>>(
    p: Pair<F, G>,
    i: I,
    i1: I,
    i2: I,
)
    requires
        p.succeeds(i),
        i1 == p.first.remaining(i),
        i2 == p.second.remaining(i1),
    ensures
        i2 == p.remaining(i),
        i1.length() <= i.length(),
        i2.length() <= i1.length(),
        i.length() - i2.length() == (i.length() - i1.length()) + (i1.length() - i2.length()),
{
    p.first.remaining_no_longer(i);
    p.second.remaining_no_longer(i1);
}

/// Consumption additivity for the three-component combinators: a
/// successful `separated_pair` consumes the sum of what its components
/// consume, the discarded separator included.
pub proof fn lemma_separated_pair_consumption<
    I: InputLength,
    E,
    F: Parser<I, E>,
    G: Parser<I, E>,
    H: Parser<I, E>,
>(p: SeparatedPair<F, G, H>, i: I, i1: I, i2: I, i3: I)
    requires
        p.succeeds(i),
        i1 == p.first.remaining(i),
        i2 == p.sep.remaining(i1),
        i3 == p.second.remaining(i2),
    ensures
        i3 == p.remaining(i),
        i1.length() <= i.length(),
        i2.length() <= i1.length(),
        i3.length() <= i2.length(),
        i.length() - i3.length() == (i.length() - i1.length()) + (i1.length() - i2.length())
            + (i2.length() - i3.length()),
{
    p.first.remaining_no_longer(i);
    p.sep.remaining_no_longer(i1);
    p.second.remaining_no_longer(i2);
}

/// Consumption additivity for `delimited`: the discarded opener and closer
/// still count towards what the whole combinator consumes.
pub proof fn lemma_delimited_consumption<
    I: InputLength,
    E,
    F: Parser<I, E>,
    G: Parser<I, E>,
    H: Parser<I, E>,
>(p: Delimited<F, G, H>, i: I, i1: I, i2: I, i3: I)
    requires
        p.succeeds(i),
        i1 == p.first.remaining(i),
        i2 == p.second.remaining(i1),
        i3 == p.third.remaining(i2),
    ensures
        i3 == p.remaining(i),
        i1.length() <= i.length(),
        i2.length() <= i1.length(),
        i3.length() <= i2.length(),
        i.length() - i3.length() == (i.length() - i1.length()) + (i1.length() - i2.length())
            + (i2.length() - i3.length()),
{
    p.first.remaining_no_longer(i);
    p.second.remaining_no_longer(i1);
    p.third.remaining_no_longer(i2);
}

/// Order preservation: each element of a pair's output is a value the
/// matching component produces when run alone on the cursor left by its
/// predecessor.
pub proof fn lemma_pair_order<I: InputLength, E, F: Parser<I, E>, G: Parser<I, E>>(
    p: Pair<F, G>,
    i: I,
    i1: I,
    o: (F::Output, G::Output),
)
    requires
        i1 == p.first.remaining(i),
        p.produces(i, o),
    ensures
        p.first.produces(i, o.0),
        p.second.produces(i1, o.1),
{
}

/// Fail-fast: the first failing component decides a pair's outcome, which
/// is forwarded unchanged; nothing of the components after it enters the
/// result, and the `parse` contract adds that they are never run.
pub proof fn lemma_pair_fail_fast<I: InputLength, E, F: Parser<I, E>, G: Parser<I, E>>(
    p: Pair<F, G>,
    i: I,
    i1: I,
)
    requires
        i1 == p.first.remaining(i),
    ensures
        !p.first.succeeds(i) ==> !p.succeeds(i) && p.failure(i) == p.first.failure(i),
        p.first.succeeds(i) && !p.second.succeeds(i1) ==> !p.succeeds(i) && p.failure(i)
            == p.second.failure(i1),
{
}

/// Fail-fast for `separated_pair`: the three components are tried in
/// order and the first failure, separator included, decides the outcome.
pub proof fn lemma_separated_pair_fail_fast<
    I: InputLength,
    E,
    F: Parser<I, E>,
    G: Parser<I, E>,
    H: Parser<I, E>,
>(p: SeparatedPair<F, G, H>, i: I, i1: I, i2: I)
    requires
        i1 == p.first.remaining(i),
        i2 == p.sep.remaining(i1),
    ensures
        !p.first.succeeds(i) ==> !p.succeeds(i) && p.failure(i) == p.first.failure(i),
        p.first.succeeds(i) && !p.sep.succeeds(i1) ==> !p.succeeds(i) && p.failure(i)
            == p.sep.failure(i1),
        p.first.succeeds(i) && p.sep.succeeds(i1) && !p.second.succeeds(i2) ==> !p.succeeds(i)
            && p.failure(i) == p.second.failure(i2),
{
}

/// Discard correctness: `preceded` succeeds exactly where `pair` of the
/// same components succeeds, leaves the same remaining input and fails the
/// same way — the discarded first output still costs its part of the
/// input — and what it produces is the second component's output.
pub proof fn lemma_preceded_discard<I: InputLength, E, F: Parser<I, E>, G: Parser<I, E>>(
    f: F,
    g: G,
    i: I,
)
    ensures
        (Preceded { first: f, second: g }).succeeds(i) == (Pair { first: f, second: g }).succeeds(
            i,
        ),
        (Preceded { first: f, second: g }).remaining(i) == (Pair { first: f, second: g }).remaining(
            i,
        ),
        (Preceded { first: f, second: g }).failure(i) == (Pair { first: f, second: g }).failure(i),
        forall|o: G::Output| #![trigger g.produces(f.remaining(i), o)]
            (Preceded { first: f, second: g }).produces(i, o) == g.produces(f.remaining(i), o),
{
}

/// Discard correctness: `terminated` succeeds exactly where `pair` of the
/// same components succeeds, leaves the same remaining input and fails the
/// same way — the discarded second component still consumes — and what it
/// produces is the first component's output.
pub proof fn lemma_terminated_discard<I: InputLength, E, F: Parser<I, E>, G: Parser<I, E>>(
    f: F,
    g: G,
    i: I,
)
    ensures
        (Terminated { first: f, second: g }).succeeds(i) == (Pair { first: f, second: g }).succeeds(
            i,
        ),
        (Terminated { first: f, second: g }).remaining(i) == (Pair {
            first: f,
            second: g,
        }).remaining(i),
        (Terminated { first: f, second: g }).failure(i) == (Pair { first: f, second: g }).failure(
            i,
        ),
        forall|o: F::Output| #![trigger f.produces(i, o)]
            (Terminated { first: f, second: g }).produces(i, o) == f.produces(i, o),
{
}

/// Discard correctness: a `separated_pair` runs its separator for
/// consumption only — success, remaining input and both kept outputs are
/// as if the separator stood in the chain with its output dropped.
pub proof fn lemma_separated_pair_discard<
    I: InputLength,
    E,
    F: Parser<I, E>,
    G: Parser<I, E>,
    H: Parser<I, E>,
>(p: SeparatedPair<F, G, H>, i: I, i1: I, i2: I)
    requires
        i1 == p.first.remaining(i),
        i2 == p.sep.remaining(i1),
    ensures
        p.succeeds(i) == (p.first.succeeds(i) && p.sep.succeeds(i1) && p.second.succeeds(i2)),
        p.remaining(i) == p.second.remaining(i2),
        forall|o: (F::Output, H::Output)| #![trigger p.produces(i, o)]
            p.produces(i, o) == (p.first.produces(i, o.0) && p.second.produces(i2, o.1)),
{
}

/// `delimited` is the composition of `preceded` and `terminated`: the
/// opener and closer still consume their parts of the input even though
/// both of their outputs are dropped.
pub proof fn lemma_delimited_discard<
    I: InputLength,
    E,
    F: Parser<I, E>,
    G: Parser<I, E>,
    H: Parser<I, E>,
>(f: F, g: G, h: H, i: I)
    ensures
        (Delimited { first: f, second: g, third: h }).succeeds(i) == (Preceded {
            first: f,
            second: Terminated { first: g, second: h },
        }).succeeds(i),
        (Delimited { first: f, second: g, third: h }).remaining(i) == (Preceded {
            first: f,
            second: Terminated { first: g, second: h },
        }).remaining(i),
        (Delimited { first: f, second: g, third: h }).failure(i) == (Preceded {
            first: f,
            second: Terminated { first: g, second: h },
        }).failure(i),
        forall|o: G::Output| #![trigger g.produces(f.remaining(i), o)]
            (Delimited { first: f, second: g, third: h }).produces(i, o) == (Preceded {
                first: f,
                second: Terminated { first: g, second: h },
            }).produces(i, o),
{
}

/// Empty-arity identity: the zero-parser tuple succeeds on any input,
/// consumes nothing, and returns the empty product. It is the identity
/// element for sequencing.
pub proof fn lemma_empty_tuple_identity<I: InputLength, E>(i: I)
    ensures
        <() as Tuple<I, E>>::succeeds(&(), i),
        <() as Tuple<I, E>>::remaining(&(), i) == i,
        <() as Tuple<I, E>>::remaining(&(), i).length() == i.length(),
        <() as Tuple<I, E>>::produces(&(), i, ()),
{
}

} // verus!
