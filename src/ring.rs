use vstd::prelude::*;

use vstd::arithmetic::div_mod::{
    lemma_add_mod_noop, lemma_add_mod_noop_right, lemma_mod_self_0,
    lemma_mod_sub_multiples_vanish, lemma_small_mod,
};

verus! {

/// `x` reduced once modulo `n`, for `x < 2 * n`.
pub open spec fn wrap(n: nat, x: int) -> int {
    if x < n {
        x
    } else {
        x - n
    }
}

/// Steps needed to walk forward round a ring of `n` slots from `from` to `to`.
pub open spec fn ring_steps(n: nat, from: int, to: int) -> nat {
    if from <= to {
        (to - from) as nat
    } else {
        (to + n - from) as nat
    }
}

/// The slots met walking from `from` to `to` (excluded) round the ring `slots`.
pub open spec fn ring_walk(slots: Seq<bool>, from: int, to: int) -> Seq<bool> {
    Seq::new(ring_steps(slots.len(), from, to), |i: int| slots[wrap(slots.len(), from + i)])
}

proof fn lemma_wrap_is_mod(n: nat, x: int)
    requires
        0 <= x < 2 * n,
    ensures
        wrap(n, x) == x % (n as int),
{
    if x < n {
        lemma_small_mod(x as nat, n);
    } else {
        lemma_mod_sub_multiples_vanish(x, n as int);
        lemma_small_mod((x - n) as nat, n);
    }
}

/// `(a + b) % n`, computed without overflow.
fn add_mod(a: usize, b: usize, n: usize) -> (r: usize)
    requires
        a < n,
    ensures
        r == (a + b) % (n as int),
{
    let c = b % n;
    proof {
        lemma_small_mod(a as nat, n as nat);
        lemma_add_mod_noop(a as int, b as int, n as int);
        lemma_small_mod(c as nat, n as nat);
        lemma_wrap_is_mod(n as nat, a + c);
    }
    if a >= n - c {
        a - (n - c)
    } else {
        a + c
    }
}

/// The window after one more sample: the oldest value leaves, `x` comes in.
pub open spec fn shift_in(w: Seq<bool>, x: bool) -> Seq<bool> {
    w.push(x).drop_first()
}

/// The window after sampling each value of `xs` in turn.
pub open spec fn after_samples(w: Seq<bool>, xs: Seq<bool>) -> Seq<bool>
    decreases xs.len(),
{
    if xs.len() == 0 {
        w
    } else {
        shift_in(after_samples(w, xs.drop_last()), xs.last())
    }
}

/// Sampling a run of values keeps the window's length and leaves in it the
/// newest values of the old window followed by the run.
pub proof fn lemma_after_samples(w: Seq<bool>, xs: Seq<bool>)
    ensures
        after_samples(w, xs) == (w + xs).subrange(xs.len() as int, (w.len() + xs.len()) as int),
    decreases xs.len(),
{
    if xs.len() > 0 {
        lemma_after_samples(w, xs.drop_last());
        assert(w + xs.drop_last() =~= (w + xs).drop_last());
        assert(after_samples(w, xs) =~= (w + xs).subrange(xs.len() as int, (w.len() + xs.len()) as int));
    } else {
        assert(w =~= (w + xs).subrange(0, w.len() as int));
    }
}

/// A fresh buffer of capacity `n` that samples `n` presses shows `n - 1`
/// presses in its window.
pub proof fn lemma_window_fills(n: nat)
    requires
        n > 0,
    ensures
        after_samples(Seq::new((n - 1) as nat, |i: int| false), Seq::new(n, |i: int| true))
            == Seq::new((n - 1) as nat, |i: int| true),
{
    let w = Seq::new((n - 1) as nat, |i: int| false);
    let xs = Seq::new(n, |i: int| true);
    lemma_after_samples(w, xs);
    assert((w + xs).subrange(n as int, (w.len() + n) as int) =~= Seq::new((n - 1) as nat, |i: int| true));
}

/// A fixed number of boolean samples in a circle. Writing a sample clears the
/// oldest slot; the readable window holds one sample less than the capacity.
pub struct RingBuffer {
    buf: Vec<bool>,
    start: usize,
    end: usize,
}

impl RingBuffer {
    /// Positions in range, end one step behind start, and the end slot clear.
    pub closed spec fn wf(self) -> bool {
        &&& self.buf@.len() > 0
        &&& self.start < self.buf@.len()
        &&& self.end == wrap(self.buf@.len(), self.start + self.buf@.len() - 1)
        &&& self.buf@[self.end as int] == false
    }

    /// Number of slots.
    pub closed spec fn capacity(self) -> nat {
        self.buf@.len()
    }

    /// All slots, by physical position.
    pub closed spec fn slots(self) -> Seq<bool> {
        self.buf@
    }

    /// Position of the oldest sample of the window.
    pub closed spec fn start_pos(self) -> int {
        self.start as int
    }

    /// Position that the next sample is written to.
    pub closed spec fn end_pos(self) -> int {
        self.end as int
    }

    /// The readable window, oldest first: every slot from the start position up
    /// to the end position, excluded.
    pub open spec fn visible(self) -> Seq<bool> {
        ring_walk(self.slots(), self.start_pos(), self.end_pos())
    }

    /// Facts that hold of every ring buffer.
    pub proof fn lemma_valid(&self)
        requires
            self.wf(),
        ensures
            self.capacity() > 0,
            self.slots().len() == self.capacity(),
            0 <= self.start_pos() < self.capacity(),
            self.end_pos() == wrap(self.capacity(), self.start_pos() + self.capacity() - 1),
            self.slots()[self.end_pos()] == false,
            self.visible().len() == self.capacity() - 1,
    {
    }

    /// A buffer of `points` slots, all false.
    pub fn new(points: usize) -> (r: Self)
        requires
            points > 0,
        ensures
            r.wf(),
            r.capacity() == points,
            r.slots() == Seq::new(points as nat, |i: int| false),
            r.start_pos() == 0,
            r.end_pos() == points - 1,
            r.visible() == Seq::new((points - 1) as nat, |i: int| false),
    {
        let r = RingBuffer { buf: vec![false; points], start: 0, end: points - 1 };
        assert(r.buf@ =~= Seq::new(points as nat, |i: int| false));
        assert(r.visible() =~= Seq::new((points - 1) as nat, |i: int| false));
        r
    }

    /// Number of slots.
    pub fn len(&self) -> (r: usize)
        requires
            self.wf(),
        ensures
            r == self.capacity(),
    {
        self.buf.len()
    }

    /// The sample held in slot `index`, by physical position.
    pub fn slot(&self, index: usize) -> (r: bool)
        requires
            self.wf(),
            index < self.capacity(),
        ensures
            r == self.slots()[index as int],
    {
        self.buf[index]
    }

    /// Writes `pressed` at the end position, clears the oldest slot and moves
    /// both positions on by one.
    pub fn sample(&mut self, pressed: bool)
        requires
            old(self).wf(),
        ensures
            final(self).wf(),
            final(self).capacity() == old(self).capacity(),
            final(self).slots() == old(self).slots().update(old(self).end_pos(), pressed).update(
                old(self).start_pos(),
                false,
            ),
            final(self).start_pos() == wrap(old(self).capacity(), old(self).start_pos() + 1),
            final(self).end_pos() == wrap(old(self).capacity(), old(self).end_pos() + 1),
            final(self).visible() == shift_in(old(self).visible(), pressed),
    {
        let n = self.buf.len();
        let s = self.start;
        let e = self.end;
        self.buf.set(e, pressed);
        self.buf.set(s, false);
        self.start = if s + 1 == n { 0 } else { s + 1 };
        self.end = if e + 1 == n { 0 } else { e + 1 };
        assert(self.visible() =~= shift_in(old(self).visible(), pressed));
    }
}

/// When every sample of the window is a press, sampling a release turns
/// exactly one slot from true to false, the one that held the oldest sample,
/// and leaves every other slot as it was.
pub proof fn lemma_release_clears_oldest(before: RingBuffer, after: RingBuffer)
    requires
        before.wf(),
        before.capacity() >= 2,
        before.visible() == Seq::new((before.capacity() - 1) as nat, |i: int| true),
        after.slots() == before.slots().update(before.end_pos(), false).update(
            before.start_pos(),
            false,
        ),
    ensures
        before.slots()[before.start_pos()] == true,
        after.slots()[before.start_pos()] == false,
        forall|j: int|
            0 <= j < before.capacity() && j != before.start_pos() ==> after.slots()[j]
                == before.slots()[j],
{
    before.lemma_valid();
    assert(before.visible()[0] == true);
}

impl RingBuffer {
    /// The window, oldest sample first.
    pub fn iter(&self) -> (r: RingBufferIter<'_>)
        requires
            self.wf(),
        ensures
            r.wf(),
            r@ == self.visible(),
    {
        RingBufferIter { buf: self, cur: self.start }
    }

    /// The `size` slots (modulo the capacity) that follow the slot `start`
    /// places after the oldest one.
    pub fn window(&self, size: usize, start: usize) -> (r: RingBufferWindowIter<'_>)
        requires
            self.wf(),
            size <= self.capacity(),
        ensures
            r.wf(),
            r@ == Seq::new(
                (size as int % self.capacity() as int) as nat,
                |i: int|
                    self.slots()[(self.start_pos() + start + 1 + i) % (self.capacity() as int)],
            ),
    {
        let n = self.buf.len();
        let first = add_mod(self.start, start, n);
        let cur = if first + 1 == n { 0 } else { first + 1 };
        let end = add_mod(cur, size, n);
        proof {
            let m = n as int;
            let x = self.start + start;
            lemma_wrap_is_mod(n as nat, first + 1);
            lemma_add_mod_noop_right(1, x, m);
            assert(cur == (x + 1) % m);
            if size as int == m {
                lemma_mod_self_0(m);
                lemma_wrap_is_mod(n as nat, cur + size);
                lemma_mod_sub_multiples_vanish(cur + size, m);
                lemma_small_mod(cur as nat, n as nat);
            } else {
                lemma_small_mod(size as nat, n as nat);
                lemma_wrap_is_mod(n as nat, cur + size);
            }
            let w = Seq::new(
                (size as int % m) as nat,
                |i: int| self.slots()[(x + 1 + i) % m],
            );
            let r = RingBufferWindowIter { buf: self, cur, end };
            assert forall|i: int| 0 <= i < w.len() implies r@[i] == w[i] by {
                lemma_wrap_is_mod(n as nat, cur + i);
                lemma_add_mod_noop_right(i, x + 1, m);
            }
            assert(r@ =~= w);
        }
        RingBufferWindowIter { buf: self, cur, end }
    }
}

/// Walks the window of a ring buffer, oldest sample first.
pub struct RingBufferIter<'a> {
    buf: &'a RingBuffer,
    cur: usize,
}

impl<'a> View for RingBufferIter<'a> {
    type V = Seq<bool>;

    /// The samples not yet handed out.
    closed spec fn view(&self) -> Seq<bool> {
        ring_walk(self.buf.slots(), self.cur as int, self.buf.end_pos())
    }
}

impl<'a> RingBufferIter<'a> {
    /// The walk stays on the ring.
    pub closed spec fn wf(self) -> bool {
        self.buf.wf() && self.cur < self.buf.capacity()
    }

    /// The next sample, or `None` once the window is done.
    pub fn next(&mut self) -> (r: Option<bool>)
        requires
            old(self).wf(),
        ensures
            final(self).wf(),
            old(self)@.len() == 0 ==> r.is_none() && final(self)@ == old(self)@,
            old(self)@.len() > 0 ==> r == Some(old(self)@[0]) && final(self)@ == old(
                self,
            )@.drop_first(),
    {
        proof {
            self.buf.lemma_valid();
        }
        if self.cur != self.buf.end {
            let item = self.buf.buf[self.cur];
            let n = self.buf.buf.len();
            self.cur = if self.cur + 1 == n { 0 } else { self.cur + 1 };
            assert(self@ =~= old(self)@.drop_first());
            Some(item)
        } else {
            None
        }
    }
}

/// Walks a stretch of slots of a ring buffer.
pub struct RingBufferWindowIter<'a> {
    buf: &'a RingBuffer,
    cur: usize,
    end: usize,
}

impl<'a> View for RingBufferWindowIter<'a> {
    type V = Seq<bool>;

    /// The samples not yet handed out.
    closed spec fn view(&self) -> Seq<bool> {
        ring_walk(self.buf.slots(), self.cur as int, self.end as int)
    }
}

impl<'a> RingBufferWindowIter<'a> {
    /// The walk stays on the ring.
    pub closed spec fn wf(self) -> bool {
        self.buf.wf() && self.cur < self.buf.capacity() && self.end < self.buf.capacity()
    }

    /// The next sample, or `None` once the stretch is done.
    pub fn next(&mut self) -> (r: Option<bool>)
        requires
            old(self).wf(),
        ensures
            final(self).wf(),
            old(self)@.len() == 0 ==> r.is_none() && final(self)@ == old(self)@,
            old(self)@.len() > 0 ==> r == Some(old(self)@[0]) && final(self)@ == old(
                self,
            )@.drop_first(),
    {
        proof {
            self.buf.lemma_valid();
        }
        if self.cur != self.end {
            let item = self.buf.buf[self.cur];
            let n = self.buf.buf.len();
            self.cur = if self.cur + 1 == n { 0 } else { self.cur + 1 };
            assert(self@ =~= old(self)@.drop_first());
            Some(item)
        } else {
            None
        }
    }
}

} // verus!
