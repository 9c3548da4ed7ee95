//! The continuation and its token transport. A continuation owns the
//! remaining, not-yet-offered portion of a result sequence, computed once
//! when enumeration begins; advancing it consumes values in creation order.
//! While control is outside native code, a continuation's ownership lives in
//! a token: converting to and from the token are the only two operations a
//! token admits, and each token is consumed exactly once — moves enforce
//! both here.

use vstd::prelude::*;

verus! {

/// The remaining, not-yet-offered portion of a result sequence.
pub struct Continuation {
    values: Vec<i64>,
    cursor: usize,
}

impl Continuation {
    /// The values still to be offered, in creation order.
    pub closed spec fn view(&self) -> Seq<i64> {
        self.values@.skip(self.cursor as int)
    }

    /// The cursor never runs past the owned sequence.
    pub closed spec fn wf(&self) -> bool {
        self.cursor <= self.values.len()
    }

    /// Wrap an eagerly computed result sequence as a fresh continuation.
    pub fn new(values: Vec<i64>) -> (r: Continuation)
        ensures
            r.wf(),
            r@ == values@,
    {
        let r = Continuation { values, cursor: 0 };
        proof {
            assert(r@ =~= r.values@);
        }
        r
    }

    /// Take the next value, advancing past it; `None` once exhausted.
    pub fn next(&mut self) -> (r: Option<i64>)
        requires
            old(self).wf(),
        ensures
            final(self).wf(),
            old(self)@.len() == 0 ==> r is None && *final(self) == *old(self),
            old(self)@.len() > 0 ==> r == Some(old(self)@[0])
                && final(self)@ == old(self)@.drop_first(),
    {
        if self.cursor < self.values.len() {
            let v = self.values[self.cursor];
            self.cursor = self.cursor + 1;
            proof {
                assert(self.values@.skip(self.cursor as int)
                    =~= old(self)@.drop_first());
            }
            Some(v)
        } else {
            None
        }
    }

    /// How many values are still to be offered.
    pub fn remaining(&self) -> (r: usize)
        requires
            self.wf(),
        ensures
            r == self@.len(),
    {
        self.values.len() - self.cursor
    }
}

/// An opaque handle owning a suspended continuation while control is outside
/// native code.
pub struct Token {
    cont: Continuation,
}

impl Token {
    /// The values the suspended continuation still holds.
    pub closed spec fn view(&self) -> Seq<i64> {
        self.cont@
    }

    /// The suspended continuation is well formed.
    pub closed spec fn wf(&self) -> bool {
        self.cont.wf()
    }
}

/// Transfer a continuation's ownership into a token, for the host to store
/// between calls.
pub fn into_token(cont: Continuation) -> (t: Token)
    requires
        cont.wf(),
    ensures
        t.wf(),
        t@ == cont@,
{
    Token { cont }
}

/// Transfer ownership back out of a token. Consuming the token makes a second
/// reconstruction impossible.
pub fn from_token(t: Token) -> (cont: Continuation)
    requires
        t.wf(),
    ensures
        cont.wf(),
        cont@ == t@,
{
    t.cont
}

} // verus!
