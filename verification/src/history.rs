//! A bounded history: the most recent values of a series, oldest first.

use vstd::prelude::*;

verus! {

/// `s` after `x` arrives in a history that keeps at most `capacity` values:
/// once full, the oldest value leaves. A history without capacity keeps
/// nothing.
pub open spec fn pushed(s: Seq<i64>, x: i64, capacity: nat) -> Seq<i64> {
    if capacity == 0 {
        s
    } else if s.len() < capacity {
        s.push(x)
    } else {
        s.drop_first().push(x)
    }
}

/// The last `w` values of `s`, or all of `s` if it holds fewer.
pub open spec fn tail(s: Seq<i64>, w: nat) -> Seq<i64> {
    if w < s.len() {
        s.subrange(s.len() - w, s.len() as int)
    } else {
        s
    }
}

/// A ring of fixed capacity that retains the most recent values pushed
/// into it. Its view is the retained values in order of arrival.
pub struct History {
    buf: Vec<i64>,
    pos: usize,
    len: usize,
}

impl View for History {
    type V = Seq<i64>;

    closed spec fn view(&self) -> Seq<i64> {
        Seq::new(self.len as nat, |i: int| self.buf@[self.slot(i)])
    }
}

impl History {
    /// Where in the buffer the `i`-th oldest retained value lies.
    closed spec fn slot(&self, i: int) -> int {
        if self.len < self.buf.len() {
            i
        } else if i < self.buf.len() - self.pos {
            self.pos + i
        } else {
            i - (self.buf.len() - self.pos)
        }
    }

    /// The number of values the history can retain.
    pub closed spec fn capacity(&self) -> nat {
        self.buf.len() as nat
    }

    /// The representation is consistent.
    pub closed spec fn wf(&self) -> bool {
        &&& self.len <= self.buf.len()
        &&& self.len < self.buf.len() ==> self.pos == self.len
        &&& self.len == self.buf.len() ==> self.pos < self.buf.len() || self.pos == 0
    }

    /// A well-formed history retains no more than its capacity.
    pub proof fn lemma_bounded(&self)
        requires
            self.wf(),
        ensures
            self@.len() <= self.capacity(),
    {
    }

    /// An empty history that retains up to `capacity` values.
    pub fn new(capacity: usize) -> (h: History)
        ensures
            h.wf(),
            h.capacity() == capacity,
            h@ == Seq::<i64>::empty(),
    {
        let mut buf: Vec<i64> = Vec::new();
        let mut i: usize = 0;
        while i < capacity
            invariant
                i <= capacity,
                buf.len() == i,
            decreases capacity - i,
        {
            buf.push(0);
            i += 1;
        }
        History { buf, pos: 0, len: 0 }
    }

    /// The number of retained values.
    pub fn len(&self) -> (n: usize)
        requires
            self.wf(),
        ensures
            n == self@.len(),
    {
        self.len
    }

    /// Forgets every retained value.
    pub fn clear(&mut self)
        requires
            old(self).wf(),
        ensures
            final(self).wf(),
            final(self).capacity() == old(self).capacity(),
            final(self)@ == Seq::<i64>::empty(),
    {
        self.pos = 0;
        self.len = 0;
    }

    /// Records `x` as the newest value; a full history drops its oldest.
    pub fn push(&mut self, x: i64)
        requires
            old(self).wf(),
        ensures
            final(self).wf(),
            final(self).capacity() == old(self).capacity(),
            final(self)@ == pushed(old(self)@, x, old(self).capacity()),
    {
        let cap: usize = self.buf.len();
        if cap == 0 {
            return;
        }
        let at: usize = self.pos;
        self.buf.set(at, x);
        self.pos = if at + 1 == cap { 0 } else { at + 1 };
        if self.len < cap {
            self.len = self.len + 1;
        }
        proof {
            let before = old(self)@;
            let after = self@;
            let want = pushed(before, x, old(self).capacity());
            assert(after.len() == want.len());
            assert forall|i: int| 0 <= i < after.len() implies after[i] == want[i] by {
                if old(self).len < cap {
                    if i < before.len() {
                        assert(after[i] == before[i]);
                    }
                } else {
                    if i < cap - 1 {
                        assert(self.slot(i) == old(self).slot(i + 1));
                        assert(want[i] == before[i + 1]);
                    }
                }
            }
            assert(after =~= want);
        }
    }

    /// The `i`-th oldest retained value.
    pub fn get(&self, i: usize) -> (x: i64)
        requires
            self.wf(),
            i < self@.len(),
        ensures
            x == self@[i as int],
    {
        let cap: usize = self.buf.len();
        if self.len < cap {
            self.buf[i]
        } else if i < cap - self.pos {
            self.buf[self.pos + i]
        } else {
            self.buf[i - (cap - self.pos)]
        }
    }

    /// The last `w` retained values, oldest first; all of them if there are
    /// fewer.
    pub fn recent(&self, w: usize) -> (out: Vec<i64>)
        requires
            self.wf(),
        ensures
            out@ == tail(self@, w as nat),
    {
        let take: usize = if w < self.len { w } else { self.len };
        let first: usize = self.len - take;
        let mut out: Vec<i64> = Vec::new();
        let mut t: usize = 0;
        while t < take
            invariant
                self.wf(),
                t <= take <= self.len,
                first == self.len - take,
                self.len == self@.len(),
                out@ == self@.subrange(first as int, first + t),
            decreases take - t,
        {
            out.push(self.get(first + t));
            proof {
                assert(out@ == self@.subrange(first as int, first + t + 1));
            }
            t += 1;
        }
        proof {
            if w >= self.len {
                assert(self@.subrange(0, self.len as int) == self@);
            }
        }
        out
    }
}

} // verus!
