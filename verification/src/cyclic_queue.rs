//! Fixed-capacity ring buffer over scalar values.
//!
//! The ring keeps the most recent `cap` values pushed into it.  Once full, a
//! push evicts the logically oldest value and returns it to the caller.
//! `get_relative(i)` addresses the i-th value counted from the oldest one;
//! out-of-range access yields `None` and never panics.

use vstd::prelude::*;

verus! {

/// Interface of the ring: capacity, occupancy, eviction-reporting push and
/// front-relative reads, specified against an abstract sequence of the held
/// values ordered from oldest to newest.
pub trait CyclicQueueInterface: Sized {
    #[allow(non_camel_case_types)]
    type VAL_TYPE;

    /// The values currently held, oldest first.
    spec fn contents(&self) -> Seq<Self::VAL_TYPE>;

    /// The fixed capacity of the ring.
    spec fn capacity(&self) -> nat;

    /// Structural well-formedness of the receiver.
    spec fn wf(&self) -> bool;

    fn max_capacity(&self) -> (r: usize)
        requires
            self.wf(),
        ensures
            r == self.capacity(),
    ;

    fn len(&self) -> (r: usize)
        requires
            self.wf(),
        ensures
            r == self.contents().len(),
    ;

    fn push(&mut self, val: Self::VAL_TYPE) -> (evicted: Option<Self::VAL_TYPE>)
        requires
            old(self).wf(),
        ensures
            final(self).wf(),
            final(self).capacity() == old(self).capacity(),
            old(self).contents().len() < old(self).capacity() ==> {
                &&& final(self).contents() == old(self).contents().push(val)
                &&& evicted is None
            },
            old(self).contents().len() == old(self).capacity() ==> {
                &&& final(self).contents() == old(self).contents().skip(1).push(val)
                &&& evicted == Some(old(self).contents()[0])
            },
    ;

    fn get_relative(&self, i: usize) -> (r: Option<&Self::VAL_TYPE>)
        requires
            self.wf(),
        ensures
            i < self.contents().len() ==> r == Some(&self.contents()[i as int]),
            i >= self.contents().len() ==> r is None,
    ;

    fn get_back(&self) -> (r: Option<&Self::VAL_TYPE>)
        requires
            self.wf(),
        ensures
            self.contents().len() > 0 ==> r == Some(
                &self.contents()[self.contents().len() - 1],
            ),
            self.contents().len() == 0 ==> r is None,
    ;
}

/// Ring buffer backed by a vector of `cap` slots.  `front` is the slot of
/// the oldest held value and `back` the slot of the newest; `back` wraps
/// modulo `cap` and `front` advances only when a push lands on a full ring.
#[derive(Debug)]
pub struct CyclicQueue<T> {
    data: Vec<T>,
    len: usize,
    cap: usize,
    front: usize,
    back: usize,
}

/// Read-only cursor over a ring, advanced by its inherent `next` method.
pub struct CyclicQueueIterator<'a, T> {
    data: &'a CyclicQueue<T>,
    i: usize,
}

impl<T: Default + Clone> CyclicQueue<T> {
    /// Builds an empty ring of `cap` slots, each filled with the default
    /// value until real data is pushed over it.
    pub fn new(cap: usize) -> (r: CyclicQueue<T>)
        requires
            1 <= cap <= usize::MAX / 2,
        ensures
            r.wf(),
            r.capacity() == cap,
            r.contents() == Seq::<T>::empty(),
            r.raw_state() == (0usize, 0usize),
    {
        let mut data: Vec<T> = Vec::new();
        let mut i: usize = 0;
        while i < cap
            invariant
                i <= cap,
                data.len() == i,
            decreases cap - i,
        {
            data.push(T::default());
            i = i + 1;
        }
        let r = CyclicQueue { data, len: 0, cap, front: 0, back: 0 };
        proof {
            assert(r.contents() =~= Seq::<T>::empty());
        }
        r
    }

    pub fn iter<'a>(&'a self) -> (r: CyclicQueueIterator<'a, T>)
        ensures
            r.queue() == self,
            r.position() == 0,
    {
        CyclicQueueIterator { data: &self, i: 0 }
    }
}

impl<T> CyclicQueue<T> {
    /// The slot indices `(front, back)`, exposed so that callers can observe
    /// how the cursor pair wraps around the backing storage.
    pub closed spec fn raw_state(&self) -> (usize, usize) {
        (self.front, self.back)
    }

    pub fn front_index(&self) -> (r: usize)
        ensures
            r == self.raw_state().0,
    {
        self.front
    }

    pub fn back_index(&self) -> (r: usize)
        ensures
            r == self.raw_state().1,
    {
        self.back
    }

    /// The backing storage in slot order (not in logical order).
    pub closed spec fn backing_view(&self) -> Seq<T> {
        self.data@
    }

    pub fn backing_data(&self) -> (r: &Vec<T>)
        ensures
            r@ == self.backing_view(),
            self.wf() ==> r@.len() == self.capacity(),
    {
        &self.data
    }
}

impl<T> CyclicQueueInterface for CyclicQueue<T> {
    #[allow(non_camel_case_types)]
    type VAL_TYPE = T;

    closed spec fn contents(&self) -> Seq<T> {
        Seq::new(
            self.len as nat,
            |i: int| self.data@[(self.front + i) % (self.cap as int)],
        )
    }

    closed spec fn capacity(&self) -> nat {
        self.cap as nat
    }

    closed spec fn wf(&self) -> bool {
        &&& 1 <= self.cap <= usize::MAX / 2
        &&& self.data@.len() == self.cap
        &&& self.len <= self.cap
        &&& self.front < self.cap
        &&& self.back < self.cap
        &&& self.back == if self.len == 0 {
            self.front as int
        } else {
            (self.front + self.len - 1) % (self.cap as int)
        }
    }

    fn max_capacity(&self) -> usize {
        self.cap
    }

    fn len(&self) -> usize {
        self.len
    }

    fn get_relative(&self, i: usize) -> (r: Option<&T>) {
        if i >= self.len {
            None
        } else {
            proof {
                lemma_mod_in_range(self.front as int, i as int, self.cap as int);
            }
            Some(&self.data[(self.front + i) % self.cap])
        }
    }

    fn get_back(&self) -> (r: Option<&T>) {
        if self.len == 0 {
            None
        } else {
            proof {
                lemma_mod_in_range(self.front as int, (self.len - 1) as int, self.cap as int);
            }
            Some(&self.data[self.back])
        }
    }

    fn push(&mut self, val: T) -> (evicted: Option<T>) {
        let ghost pre = *self;
        let ghost v = val;
        if self.len == 0 {
            // The ring is empty: the newest value lands in the slot `back`
            // already points at.
            self.len = 1;
            let b = self.back;
            self.data[b] = val;
            proof {
                lemma_push_empty(pre, *self, v);
            }
            None
        } else {
            self.back = (self.back + 1) % self.cap;
            proof {
                let c = pre.cap as int;
                assert((pre.back + 1) % c == (pre.front + pre.len) % c) by (nonlinear_arith)
                    requires
                        pre.back == (pre.front + pre.len - 1) % c,
                        1 <= pre.len,
                        0 <= pre.front < c,
                        1 <= c,
                ;
                if pre.len < pre.cap {
                    assert((pre.front + pre.len) % c != pre.front as int) by (nonlinear_arith)
                        requires
                            0 <= pre.front < c,
                            1 <= pre.len < c,
                    ;
                } else {
                    assert((pre.front + pre.len) % c == pre.front as int) by (nonlinear_arith)
                        requires
                            0 <= pre.front < c,
                            pre.len == c,
                    ;
                }
            }
            if self.len != self.cap {
                self.len = self.len + 1;
            }
            if self.front == self.back {
                // The write cursor caught up with the oldest value: advance
                // the front and hand the displaced value back.
                self.front = (self.front + 1) % self.cap;
                let b = self.back;
                let mut temp = val;
                core::mem::swap(&mut temp, &mut self.data[b]);
                proof {
                    lemma_push_full(pre, *self, v);
                    assert(temp == pre.contents()[0]);
                }
                Some(temp)
            } else {
                let b = self.back;
                self.data[b] = val;
                proof {
                    lemma_push_nonfull(pre, *self, v);
                }
                None
            }
        }
    }
}

impl<'a, T> CyclicQueueIterator<'a, T> {
    pub closed spec fn queue(&self) -> &'a CyclicQueue<T> {
        self.data
    }

    pub closed spec fn position(&self) -> nat {
        self.i as nat
    }

    /// Advances the cursor, then reads at the advanced position; the value
    /// at relative position 0 is therefore never produced.
    pub fn next(&mut self) -> (r: Option<&'a T>)
        requires
            old(self).queue().wf(),
        ensures
            final(self).queue() == old(self).queue(),
            final(self).position() == if old(self).position() < usize::MAX {
                old(self).position() + 1
            } else {
                old(self).position()
            },
            final(self).position() < old(self).queue().contents().len() ==> r == Some(
                &old(self).queue().contents()[final(self).position() as int],
            ),
            final(self).position() >= old(self).queue().contents().len() ==> r is None,
    {
        if self.i < usize::MAX {
            self.i = self.i + 1;
        }
        self.data.get_relative(self.i)
    }
}

/// What a ring of capacity `cap` holds after the values `vs` have been
/// pushed into it, oldest first: all of them while they fit, then the most
/// recent `cap`.
pub open spec fn ring_history<T>(cap: nat, vs: Seq<T>) -> Seq<T> {
    if vs.len() <= cap {
        vs
    } else {
        vs.skip(vs.len() - cap)
    }
}

/// Pushing maintains the history view: a ring holding the last values of
/// `vs` holds the last values of `vs.push(v)` after one more push.  With
/// `n` values pushed so far, `get_relative(i)` therefore returns the i-th
/// pushed value while `n <= cap`, and `get_relative(0)` returns the
/// `(n - cap)`-th pushed value once `n > cap`.
pub proof fn lemma_ring_history_push<T>(cap: nat, vs: Seq<T>, v: T, pre: Seq<T>, post: Seq<T>)
    requires
        cap >= 1,
        pre == ring_history(cap, vs),
        post == if pre.len() < cap {
            pre.push(v)
        } else {
            pre.skip(1).push(v)
        },
    ensures
        post == ring_history(cap, vs.push(v)),
{
    if vs.len() < cap {
        assert(post =~= ring_history(cap, vs.push(v)));
    } else {
        assert(pre.len() == cap);
        assert(post =~= vs.push(v).skip(vs.len() + 1 - cap));
    }
}

/// A well-formed ring never holds more values than its capacity.
pub proof fn lemma_contents_within_capacity<T>(q: &CyclicQueue<T>)
    requires
        q.wf(),
    ensures
        q.contents().len() <= q.capacity(),
{
}

/// For a slot `f < c` and an offset `i < c`, the wrapped index stays inside
/// the backing storage.
proof fn lemma_mod_in_range(f: int, i: int, c: int)
    requires
        0 <= f < c,
        0 <= i < c,
    ensures
        0 <= (f + i) % c < c,
        (f + i) % c == if f + i < c {
            f + i
        } else {
            f + i - c
        },
{
    assert(0 <= (f + i) % c < c && (f + i) % c == if f + i < c {
        f + i
    } else {
        f + i - c
    }) by (nonlinear_arith)
        requires
            0 <= f < c,
            0 <= i < c,
    ;
}

proof fn lemma_push_empty<T>(pre: CyclicQueue<T>, post: CyclicQueue<T>, val: T)
    requires
        pre.wf(),
        pre.len == 0,
        post.cap == pre.cap,
        post.front == pre.front,
        post.back == pre.back,
        post.len == 1,
        post.data@ == pre.data@.update(pre.back as int, val),
    ensures
        post.wf(),
        post.contents() == pre.contents().push(val),
{
    lemma_mod_in_range(post.front as int, 0, post.cap as int);
    assert(post.contents() =~= pre.contents().push(val));
}

proof fn lemma_push_nonfull<T>(pre: CyclicQueue<T>, post: CyclicQueue<T>, val: T)
    requires
        pre.wf(),
        1 <= pre.len < pre.cap,
        post.cap == pre.cap,
        post.front == pre.front,
        post.len == pre.len + 1,
        post.back == (pre.back + 1) % (pre.cap as int),
        post.data@ == pre.data@.update(post.back as int, val),
    ensures
        post.wf(),
        post.contents() == pre.contents().push(val),
{
    let c = pre.cap as int;
    lemma_mod_in_range(pre.front as int, pre.len as int, c);
    lemma_mod_in_range(pre.front as int, (pre.len - 1) as int, c);
    assert((pre.back + 1) % c == (pre.front + pre.len) % c) by {
        assert(pre.back == (pre.front + pre.len - 1) % c);
        assert(((pre.front + pre.len - 1) % c + 1) % c == (pre.front + pre.len) % c)
            by (nonlinear_arith)
            requires
                0 < c,
        ;
    }
    assert forall|i: int| 0 <= i < pre.len implies post.data@[#[trigger] ((pre.front + i) % c)]
        == pre.data@[(pre.front + i) % c] by {
        lemma_mod_in_range(pre.front as int, i, c);
        assert((pre.front + i) % c != (pre.front + pre.len) % c) by (nonlinear_arith)
            requires
                0 <= pre.front < c,
                0 <= i < pre.len,
                pre.len < c,
        ;
    }
    assert(post.contents() =~= pre.contents().push(val));
}

proof fn lemma_push_full<T>(pre: CyclicQueue<T>, post: CyclicQueue<T>, val: T)
    requires
        pre.wf(),
        pre.len == pre.cap,
        1 <= pre.len,
        post.cap == pre.cap,
        post.len == pre.len,
        post.back == (pre.back + 1) % (pre.cap as int),
        post.front == (pre.front + 1) % (pre.cap as int),
        post.data@ == pre.data@.update(post.back as int, val),
    ensures
        post.wf(),
        post.contents() == pre.contents().skip(1).push(val),
        pre.front == post.back,
        pre.contents()[0] == pre.data@[pre.front as int],
{
    let c = pre.cap as int;
    // With a full ring the write cursor wraps onto the old front slot.
    assert(pre.back == (pre.front + pre.len - 1) % c);
    assert((pre.back + 1) % c == pre.front as int) by (nonlinear_arith)
        requires
            pre.back == (pre.front + pre.len - 1) % (pre.cap as int),
            pre.len == pre.cap,
            0 <= pre.front < pre.cap,
            1 <= pre.cap,
            c == pre.cap as int,
    ;
    assert(0 <= (pre.front + 1) % c < c) by (nonlinear_arith)
        requires
            1 <= c,
            0 <= pre.front,
    ;
    assert(post.back == pre.front as int);
    assert(post.wf()) by {
        assert((post.front + post.len - 1) % c == post.back as int) by (nonlinear_arith)
            requires
                post.front == (pre.front + 1) % c,
                post.back == pre.front as int,
                post.len == c,
                0 <= pre.front < c,
                1 <= c,
        ;
    }
    assert forall|i: int| 0 <= i < c - 1 implies post.contents()[i] == pre.contents()[i + 1] by {
        lemma_mod_in_range(pre.front as int, i + 1, c);
        assert((post.front + i) % c == (pre.front + (i + 1)) % c) by (nonlinear_arith)
            requires
                post.front == (pre.front + 1) % c,
                0 <= pre.front < c,
                0 <= i < c - 1,
        ;
        assert((pre.front + (i + 1)) % c != pre.front as int) by (nonlinear_arith)
            requires
                0 <= pre.front < c,
                0 < i + 1 < c,
        ;
    }
    assert(post.contents()[c - 1] == val) by {
        assert((post.front + (c - 1)) % c == post.back as int) by (nonlinear_arith)
            requires
                post.front == (pre.front + 1) % c,
                post.back == pre.front as int,
                0 <= pre.front < c,
                1 <= c,
        ;
    }
    assert(post.contents() =~= pre.contents().skip(1).push(val));
    assert(pre.contents()[0] == pre.data@[pre.front as int]) by {
        lemma_mod_in_range(pre.front as int, 0, c);
    }
}

} // verus!
