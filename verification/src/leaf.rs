//! Leaf parsers: the parsers that actually inspect cursor contents.
//!
//! The sequencing combinators compose arbitrary parsers and never look at
//! the input themselves; the parsers here are the concrete ends of such a
//! composition over the byte [`Cursor`](crate::cursor::Cursor).

use vstd::prelude::*;

use crate::cursor::Cursor;
use crate::error::Needed;
use crate::error::ParseErr;
use crate::parser::IResult;
use crate::parser::Parser;

verus! {

/// Where in the source a leaf parser gave up: the position of the first
/// unconsumed element at the time of the failing invocation.
#[derive(Debug, PartialEq, Eq, Clone, Copy)]
pub struct Context {
    /// The failing parser's starting position in the source.
    pub at: usize,
}

/// A leaf parser that matches an exact literal prefix of the input and
/// consumes it, failing recoverably (no commitment) on anything else.
#[derive(Debug, PartialEq, Eq, Clone)]
pub struct Tag {
    /// The bytes the input must start with.
    pub literal: Vec<u8>,
}

impl Tag {
    /// A parser for the exact byte sequence `literal`.
    pub fn new(literal: Vec<u8>) -> (t: Tag)
        ensures
            t.literal == literal,
    {
        Tag { literal }
    }
}

impl Parser<Cursor, Context> for Tag {
    /// The matched bytes.
    type Output = Vec<u8>;

    /// The input is well formed and starts with the literal.
    open spec fn succeeds(&self, i: Cursor) -> bool {
        &&& i.wf()
        &&& self.literal@.len() <= i@.len()
        &&& i@.subrange(0, self.literal@.len() as int) == self.literal@
    }

    /// The same source, past the matched literal.
    open spec fn remaining(&self, i: Cursor) -> Cursor {
        (Cursor { data: i.data, pos: (i.pos + self.literal@.len()) as usize })
    }

    /// The matched bytes: exactly the literal.
    open spec fn produces(&self, i: Cursor, o: Vec<u8>) -> bool {
        o@ == self.literal@
    }

    /// A recoverable error at the position where matching started.
    open spec fn failure(&self, i: Cursor) -> ParseErr<Context> {
        ParseErr::Error(Context { at: i.pos })
    }

    /// A failing match leaves the parser exactly as it was.
    open spec fn untouched_on_failure(&self, post: Self, i: Cursor) -> bool {
        post == *self
    }

    proof fn remaining_no_longer(&self, i: Cursor) {
        if self.succeeds(i) {
            assert(i.data.len() == i.data@.len());
            assert(self.remaining(i).pos == i.pos + self.literal@.len());
        }
    }

    fn parse(&mut self, i: Cursor) -> (r: IResult<Cursor, Vec<u8>, Context>) {
        let n = self.literal.len();
        if i.pos > i.data.len() || n > i.data.len() - i.pos {
            proof {
                assert(!self.succeeds(i));
            }
            return Err(ParseErr::Error(Context { at: i.pos }));
        }
        let mut k: usize = 0;
        while k < n
            invariant
                k <= n,
                i.pos + n <= i.data.len(),
                n == self.literal@.len(),
                forall|m: int| 0 <= m < k ==> i.data@[i.pos + m] == self.literal@[m],
            decreases n - k,
        {
            if i.data[i.pos + k] != self.literal[k] {
                proof {
                    assert(i@[k as int] == i.data@[i.pos + k]);
                    assert(!self.succeeds(i)) by {
                        if self.succeeds(i) {
                            assert(i@.subrange(0, n as int)[k as int] == i@[k as int]);
                        }
                    }
                }
                return Err(ParseErr::Error(Context { at: i.pos }));
            }
            k += 1;
        }
        proof {
            assert(i@.subrange(0, n as int) =~= self.literal@) by {
                assert(forall|m: int| 0 <= m < n ==> i@.subrange(0, n as int)[m]
                    == i.data@[i.pos + m]);
            }
            assert(self.succeeds(i));
        }
        let out = self.literal.clone();
        proof {
            assert(out@ =~= self.literal@);
        }
        let rest = i.advance(n);
        Ok((rest, out))
    }
}

/// What a [`Probe`] reports on every invocation.
#[derive(Debug, PartialEq, Eq, Clone, Copy)]
pub enum ProbeMode {
    /// Succeed without consuming input.
    Succeed,
    /// Fail with a recoverable error.
    Recoverable,
    /// Fail with an unrecoverable failure.
    Fatal,
    /// Report that an unknown amount of further input is needed.
    NeedMore,
}

/// A stub parser for watching the sequencing layer from outside: it
/// consumes nothing, reports the fixed outcome chosen at construction, and
/// counts how often it was invoked. A combinator that fails early must
/// leave the count of every component after the failing one at zero.
#[derive(Debug, PartialEq, Eq, Clone, Copy)]
pub struct Probe {
    /// The outcome reported on every invocation.
    pub mode: ProbeMode,
    /// How many times `parse` has been run.
    pub calls: u64,
}

impl Probe {
    /// A probe that reports per `mode` and has not yet been invoked.
    pub fn new(mode: ProbeMode) -> (p: Probe)
        ensures
            p == (Probe { mode, calls: 0u64 }),
    {
        Probe { mode, calls: 0 }
    }
}

impl Parser<Cursor, Context> for Probe {
    /// A probe yields no semantic value.
    type Output = ();

    /// Exactly in the succeeding mode.
    open spec fn succeeds(&self, i: Cursor) -> bool {
        self.mode is Succeed
    }

    /// The input, untouched.
    open spec fn remaining(&self, i: Cursor) -> Cursor {
        i
    }

    /// The empty output.
    open spec fn produces(&self, i: Cursor, o: ()) -> bool {
        true
    }

    /// The outcome the mode prescribes, at the current position.
    open spec fn failure(&self, i: Cursor) -> ParseErr<Context> {
        match self.mode {
            ProbeMode::Recoverable => ParseErr::Error(Context { at: i.pos }),
            ProbeMode::Fatal => ParseErr::Failure(Context { at: i.pos }),
            _ => ParseErr::Incomplete(Needed::Unknown),
        }
    }

    /// A failing invocation still counts: only the mode is kept.
    open spec fn untouched_on_failure(&self, post: Self, i: Cursor) -> bool {
        post.mode == self.mode
    }

    proof fn remaining_no_longer(&self, i: Cursor) {
    }

    fn parse(&mut self, i: Cursor) -> (r: IResult<Cursor, (), Context>)
        ensures
            old(self).calls < u64::MAX ==> final(self).calls == old(self).calls + 1,
            final(self).mode == old(self).mode,
    {
        if self.calls < u64::MAX {
            self.calls = self.calls + 1;
        }
        match self.mode {
            ProbeMode::Succeed => Ok((i, ())),
            ProbeMode::Recoverable => Err(ParseErr::Error(Context { at: i.pos })),
            ProbeMode::Fatal => Err(ParseErr::Failure(Context { at: i.pos })),
            ProbeMode::NeedMore => Err(ParseErr::Incomplete(Needed::Unknown)),
        }
    }
}

} // verus!
