//! The input ring: a cyclic buffer of samples with a write position.
//!
//! The ring never interprets a sample; it stores and returns them. The
//! producer stores samples at the write position and moves it on; the
//! analysis reads the samples that end at the write position, wrapping
//! around the end of the buffer.

use vstd::prelude::*;
use vstd::arithmetic::div_mod::{
    lemma_fundamental_div_mod,
    lemma_fundamental_div_mod_converse,
    lemma_mod_bound,
};

verus! {

/// The index of the sample that lies `back` places before position `pos` in
/// a ring of `capacity` slots.
pub open spec fn wrap_back(pos: int, back: int, capacity: int) -> int {
    (pos - back) % capacity
}

/// The `n` samples that end just before position `pos`, oldest first.
pub open spec fn recent_samples<T>(samples: Seq<T>, pos: int, n: nat) -> Seq<T> {
    Seq::new(n, |i: int| samples[wrap_back(pos, n - i, samples.len() as int)])
}

/// The ring after the producer stored `block` slot by slot from position
/// `pos` on, wrapping around the end.
pub open spec fn stored_block<T>(samples: Seq<T>, pos: int, block: Seq<T>) -> Seq<T>
    decreases block.len(),
{
    if block.len() == 0 {
        samples
    } else {
        stored_block(samples, pos, block.drop_last()).update(
            (pos + block.len() - 1) % (samples.len() as int),
            block.last(),
        )
    }
}

/// Two positions less than a whole turn apart lie in different slots.
pub proof fn lemma_wrap_distinct(a: int, b: int, c: int)
    requires
        c > 0,
        0 < b - a < c,
    ensures
        a % c != b % c,
{
    lemma_fundamental_div_mod(a, c);
    lemma_fundamental_div_mod(b, c);
    if a % c == b % c {
        let d: int = b / c - a / c;
        assert(b - a == c * d) by (nonlinear_arith)
            requires
                a == c * (a / c) + a % c,
                b == c * (b / c) + b % c,
                a % c == b % c,
                d == b / c - a / c,
        ;
        assert(false) by (nonlinear_arith)
            requires
                0 < c * d < c,
                c > 0,
        ;
    }
}

/// Storing a block changes no length and leaves block value `i` in the
/// slot `i` places after `pos`, as long as the block fits in the ring.
pub proof fn lemma_stored_block<T>(samples: Seq<T>, pos: int, block: Seq<T>, i: int)
    requires
        samples.len() > 0,
        block.len() <= samples.len(),
        0 <= i < block.len(),
    ensures
        stored_block(samples, pos, block).len() == samples.len(),
        stored_block(samples, pos, block)[(pos + i) % (samples.len() as int)] == block[i],
    decreases block.len(),
{
    let c: int = samples.len() as int;
    let k: int = block.len() as int;
    lemma_stored_len(samples, pos, block.drop_last());
    lemma_mod_bound(pos + k - 1, c);
    lemma_mod_bound(pos + i, c);
    if i < k - 1 {
        lemma_stored_block(samples, pos, block.drop_last(), i);
        lemma_wrap_distinct(pos + i, pos + k - 1, c);
    }
}

/// Storing a block changes no length.
pub proof fn lemma_stored_len<T>(samples: Seq<T>, pos: int, block: Seq<T>)
    requires
        samples.len() > 0,
    ensures
        stored_block(samples, pos, block).len() == samples.len(),
    decreases block.len(),
{
    if block.len() > 0 {
        lemma_stored_len(samples, pos, block.drop_last());
        lemma_mod_bound(pos + block.len() - 1, samples.len() as int);
    }
}

/// Stepping one slot forward in a ring.
pub proof fn lemma_wrap_step(a: int, c: int)
    requires
        c > 0,
    ensures
        (a + 1) % c == if a % c + 1 == c { 0 } else { a % c + 1 },
{
    lemma_fundamental_div_mod(a, c);
    lemma_mod_bound(a, c);
    let q: int = a / c;
    let r: int = a % c;
    if r + 1 == c {
        assert(a + 1 == (q + 1) * c + 0) by (nonlinear_arith)
            requires
                a == c * q + r,
                r + 1 == c,
        ;
        lemma_fundamental_div_mod_converse(a + 1, c, q + 1, 0);
    } else {
        assert(a + 1 == q * c + (r + 1)) by (nonlinear_arith)
            requires
                a == c * q + r,
        ;
        lemma_fundamental_div_mod_converse(a + 1, c, q, r + 1);
    }
}

/// Stepping back by `n` is stepping back by `n % c`.
pub proof fn lemma_wrap_back_reduces(pos: int, n: int, c: int)
    requires
        c > 0,
        0 <= pos < c,
        0 <= n,
    ensures
        wrap_back(pos, n, c) == if pos >= n % c { pos - n % c } else { c - (n % c - pos) },
{
    lemma_fundamental_div_mod(n, c);
    lemma_mod_bound(n, c);
    let q: int = n / c;
    let r: int = n % c;
    if pos >= r {
        assert(pos - n == (-q) * c + (pos - r)) by (nonlinear_arith)
            requires
                n == c * q + r,
        ;
        lemma_fundamental_div_mod_converse(pos - n, c, -q, pos - r);
    } else {
        assert(pos - n == (-q - 1) * c + (c - (r - pos))) by (nonlinear_arith)
            requires
                n == c * q + r,
        ;
        lemma_fundamental_div_mod_converse(pos - n, c, -q - 1, c - (r - pos));
    }
}

/// A cyclic buffer of samples and the position at which the producer
/// writes next.
pub struct InputRing<T> {
    samples: Vec<T>,
    write_pos: usize,
}

impl<T: Copy> InputRing<T> {
    /// The stored samples, by slot.
    pub closed spec fn samples(&self) -> Seq<T> {
        self.samples@
    }

    /// The write position.
    pub closed spec fn position(&self) -> nat {
        self.write_pos as nat
    }

    /// The write position lies inside the ring; in a ring without slots it
    /// is zero.
    pub closed spec fn wf(&self) -> bool {
        if self.samples.len() == 0 {
            self.write_pos == 0
        } else {
            self.write_pos < self.samples.len()
        }
    }

    /// What `wf` says, over the public accessors.
    pub proof fn lemma_wf(&self)
        requires
            self.wf(),
        ensures
            self.samples().len() <= usize::MAX,
            self.samples().len() == 0 ==> self.position() == 0,
            self.samples().len() > 0 ==> self.position() < self.samples().len(),
    {
    }

    /// A ring of `capacity` slots, each holding `silence`, with the write
    /// position at the start.
    pub fn new(capacity: usize, silence: T) -> (ring: Self)
        ensures
            ring.wf(),
            ring.samples() == Seq::new(capacity as nat, |i: int| silence),
            ring.position() == 0,
    {
        let mut samples: Vec<T> = Vec::new();
        let mut i: usize = 0;
        while i < capacity
            invariant
                i <= capacity,
                samples@ == Seq::new(i as nat, |k: int| silence),
            decreases capacity - i,
        {
            samples.push(silence);
            proof {
                assert(samples@ == Seq::new((i + 1) as nat, |k: int| silence));
            }
            i += 1;
        }
        InputRing { samples, write_pos: 0 }
    }

    /// The number of slots.
    pub fn capacity(&self) -> (c: usize)
        ensures
            c == self.samples().len(),
    {
        self.samples.len()
    }

    /// The slots of the ring, for reading.
    pub fn slots(&self) -> (samples: &Vec<T>)
        ensures
            samples@ == self.samples(),
    {
        &self.samples
    }

    /// The write position.
    pub fn write_pos(&self) -> (p: usize)
        ensures
            p == self.position(),
    {
        self.write_pos
    }

    /// Moves the write position to `pos`, reduced into the ring.
    pub fn seek(&mut self, pos: usize)
        requires
            old(self).samples().len() > 0,
        ensures
            final(self).wf(),
            final(self).samples() == old(self).samples(),
            final(self).position() == pos as int % old(self).samples().len() as int,
    {
        self.write_pos = pos % self.samples.len();
    }

    /// Stores `sample` in slot `index`.
    pub fn store(&mut self, index: usize, sample: T)
        requires
            index < old(self).samples().len(),
        ensures
            final(self).wf() == old(self).wf(),
            final(self).samples() == old(self).samples().update(index as int, sample),
            final(self).position() == old(self).position(),
    {
        self.samples.set(index, sample);
    }

    /// Stores `block` slot by slot from the write position on, wrapping
    /// around the end, and moves the write position past it.
    pub fn store_block(&mut self, block: &Vec<T>)
        requires
            old(self).wf(),
            old(self).samples().len() > 0,
        ensures
            final(self).wf(),
            final(self).samples() == stored_block(
                old(self).samples(),
                old(self).position() as int,
                block@,
            ),
            final(self).position() == (old(self).position() + block.len()) % (old(
                self,
            ).samples().len() as int),
    {
        let cap: usize = self.samples.len();
        let start: usize = self.write_pos;
        let mut i: usize = 0;
        proof {
            vstd::arithmetic::div_mod::lemma_small_mod(start as nat, cap as nat);
        }
        while i < block.len()
            invariant
                i <= block.len(),
                cap == self.samples@.len(),
                cap == old(self).samples@.len(),
                cap > 0,
                start == old(self).write_pos,
                self.write_pos < cap,
                self.write_pos == (start + i) % (cap as int),
                self.samples@ == stored_block(old(self).samples@, start as int, block@.take(i as int)),
            decreases block.len() - i,
        {
            proof {
                lemma_wrap_step(start + i, cap as int);
                assert(block@.take(i + 1).drop_last() == block@.take(i as int));
            }
            self.samples.set(self.write_pos, block[i]);
            self.write_pos = if self.write_pos + 1 == cap { 0 } else { self.write_pos + 1 };
            i += 1;
        }
        proof {
            assert(block@.take(block.len() as int) == block@);
        }
    }

    /// The sample in slot `index`.
    pub fn load(&self, index: usize) -> (sample: T)
        requires
            index < self.samples().len(),
        ensures
            sample == self.samples()[index as int],
    {
        self.samples[index]
    }

    /// The slot of the oldest of the `n` samples that end at the write
    /// position.
    pub fn tail_start(&self, n: usize) -> (start: usize)
        requires
            self.wf(),
            self.samples().len() > 0,
        ensures
            start == wrap_back(self.position() as int, n as int, self.samples().len() as int),
            start < self.samples().len(),
    {
        let cap: usize = self.samples.len();
        let back: usize = n % cap;
        proof {
            lemma_wrap_back_reduces(self.write_pos as int, n as int, cap as int);
        }
        if self.write_pos >= back {
            self.write_pos - back
        } else {
            cap - (back - self.write_pos)
        }
    }

    /// The `n` samples that end at the write position, oldest first. Where
    /// `n` exceeds the capacity the walk goes round the ring more than once.
    pub fn recent(&self, n: usize) -> (out: Vec<T>)
        requires
            self.wf(),
            self.samples().len() > 0,
        ensures
            out@ == recent_samples(self.samples(), self.position() as int, n as nat),
    {
        let cap: usize = self.samples.len();
        let mut at: usize = self.tail_start(n);
        let mut out: Vec<T> = Vec::new();
        let mut i: usize = 0;
        while i < n
            invariant
                self.wf(),
                cap == self.samples@.len(),
                cap > 0,
                i <= n,
                at < cap,
                at == wrap_back(self.write_pos as int, n - i, cap as int),
                out@ == recent_samples(self.samples(), self.position() as int, n as nat).take(
                    i as int,
                ),
            decreases n - i,
        {
            out.push(self.samples[at]);
            proof {
                lemma_wrap_step(self.write_pos - (n - i), cap as int);
                assert(out@ == recent_samples(
                    self.samples(),
                    self.position() as int,
                    n as nat,
                ).take(i + 1));
            }
            at = if at + 1 == cap { 0 } else { at + 1 };
            i += 1;
        }
        proof {
            let all = recent_samples(self.samples(), self.position() as int, n as nat);
            assert(all.take(n as int) == all);
        }
        out
    }
}

} // verus!
