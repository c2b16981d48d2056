//! A concrete input cursor over bytes.

use vstd::prelude::*;

use crate::parser::InputLength;

verus! {

/// An immutable handle to the remaining unconsumed input: the source bytes
/// together with how far into them the parse has come. Consuming never
/// mutates a cursor; a parser hands back a fresh cursor further along the
/// same source, so a caller that kept the old value can always back up to it.
#[derive(Debug, PartialEq, Eq, Clone)]
pub struct Cursor {
    /// The whole source being parsed.
    pub data: Vec<u8>,
    /// How many elements of the source have been consumed.
    pub pos: usize,
}

impl View for Cursor {
    type V = Seq<u8>;

    /// A cursor is read as the bytes still to be consumed.
    open spec fn view(&self) -> Seq<u8> {
        self.data@.subrange(self.pos as int, self.data@.len() as int)
    }
}

impl Cursor {
    /// The position lies inside the source.
    pub open spec fn wf(&self) -> bool {
        self.pos <= self.data@.len()
    }

    /// A cursor at the start of `data`.
    pub fn new(data: Vec<u8>) -> (c: Cursor)
        ensures
            c.wf(),
            c.data == data,
            c.pos == 0,
            c@ == data@,
    {
        let c = Cursor { data, pos: 0 };
        proof {
            assert(c@ =~= c.data@);
        }
        c
    }

    /// How many elements are left to consume.
    pub fn len(&self) -> (n: usize)
        requires
            self.wf(),
        ensures
            n == self@.len(),
    {
        self.data.len() - self.pos
    }

    /// The cursor `n` elements further along the same source.
    pub fn advance(self, n: usize) -> (c: Cursor)
        requires
            self.wf(),
            n <= self@.len(),
        ensures
            c.wf(),
            c.data == self.data,
            c.pos == self.pos + n,
            c@ == self@.skip(n as int),
    {
        proof {
            assert(self.data.len() == self.data@.len());
        }
        let c = Cursor { pos: self.pos + n, data: self.data };
        proof {
            assert(c@ =~= self@.skip(n as int));
        }
        c
    }
}

impl InputLength for Cursor {
    /// The number of unconsumed bytes.
    open spec fn length(&self) -> nat {
        self@.len()
    }
}

} // verus!
