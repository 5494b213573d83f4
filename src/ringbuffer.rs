use vstd::prelude::*;

verus! {

/// The last `cap` items of `s` (all of `s` when it is shorter).
pub open spec fn keep_last<T>(s: Seq<T>, cap: nat) -> Seq<T> {
    if s.len() <= cap {
        s
    } else {
        s.subrange(s.len() - cap, s.len() as int)
    }
}

/// What a buffer of capacity `cap`, created empty, holds after `s` was pushed
/// item by item.
pub open spec fn ring_after<T>(cap: nat, s: Seq<T>) -> Seq<T>
    decreases s.len(),
{
    if s.len() == 0 {
        Seq::empty()
    } else {
        keep_last(ring_after(cap, s.drop_last()).push(s.last()), cap)
    }
}

/// Fixed-capacity FIFO: once full, each push evicts the oldest item.
pub struct RingBuffer<T> {
    buffer: Vec<T>,
    head: usize,
    tail: usize,
    size: usize,
    capacity: usize,
}

impl<T> View for RingBuffer<T> {
    type V = Seq<T>;

    /// The items, oldest first.
    closed spec fn view(&self) -> Seq<T> {
        Seq::new(self.size as nat, |i: int| self.buffer@[(self.head + i) % (self.capacity as int)])
    }
}

impl<T: Copy> RingBuffer<T> {
    pub closed spec fn wf(&self) -> bool {
        &&& self.buffer@.len() == self.size
        &&& self.size <= self.capacity
        &&& self.tail == self.head
        &&& (self.capacity == 0 ==> self.head == 0)
        &&& (self.capacity > 0 ==> self.head < self.capacity)
        &&& (self.size < self.capacity ==> self.head == 0)
    }

    pub closed spec fn cap(&self) -> nat {
        self.capacity as nat
    }

    pub fn new(capacity: usize) -> (r: Self)
        ensures
            r.wf(),
            r@ == Seq::<T>::empty(),
            r.cap() == capacity,
    {
        RingBuffer { buffer: Vec::new(), head: 0, tail: 0, size: 0, capacity }
    }

    /// Appends `item`; a full buffer drops its oldest item, and a buffer of
    /// capacity 0 keeps nothing.
    pub fn push(&mut self, item: T)
        requires
            old(self).wf(),
        ensures
            final(self).wf(),
            final(self).cap() == old(self).cap(),
            final(self)@ == keep_last(old(self)@.push(item), old(self).cap()),
    {
        if self.capacity == 0 {
            assert(keep_last(old(self)@.push(item), 0) =~= Seq::<T>::empty());
            assert(self@ =~= Seq::<T>::empty());
            return;
        }
        if self.size < self.capacity {
            self.buffer.push(item);
            self.size = self.size + 1;
            proof {
                let cap = self.capacity as int;
                assert forall|i: int| 0 <= i < self.size implies #[trigger] self@[i]
                    == old(self)@.push(item)[i] by {
                    vstd::arithmetic::div_mod::lemma_small_mod(i as nat, cap as nat);
                }
                assert(self@ =~= old(self)@.push(item));
            }
        } else {
            let t = self.tail;
            self.buffer.set(t, item);
            self.tail = (self.tail + 1) % self.capacity;
            self.head = (self.head + 1) % self.capacity;
            proof {
                let cap = self.capacity as int;
                let h0 = old(self).head as int;
                assert forall|i: int| 0 <= i < cap implies #[trigger] self@[i] == keep_last(
                    old(self)@.push(item),
                    old(self).cap(),
                )[i] by {
                    assert(self.head as int == (h0 + 1) % cap);
                    assert((((h0 + 1) % cap) + i) % cap == (h0 + 1 + i) % cap) by {
                        vstd::arithmetic::div_mod::lemma_add_mod_noop(h0 + 1, i, cap);
                        vstd::arithmetic::div_mod::lemma_mod_twice(i, cap);
                        vstd::arithmetic::div_mod::lemma_small_mod(i as nat, cap as nat);
                    }
                    if i < cap - 1 {
                        assert(old(self)@[i + 1] == old(self).buffer@[(h0 + i + 1) % cap]);
                        assert((h0 + 1 + i) % cap != h0) by {
                            vstd::arithmetic::div_mod::lemma_small_mod((h0 as nat), cap as nat);
                            if h0 + 1 + i < cap {
                                vstd::arithmetic::div_mod::lemma_small_mod((h0 + 1 + i) as nat, cap as nat);
                            } else {
                                vstd::arithmetic::div_mod::lemma_fundamental_div_mod_converse(
                                    h0 + 1 + i,
                                    cap,
                                    1,
                                    h0 + 1 + i - cap,
                                );
                            }
                        }
                    } else {
                        assert((h0 + 1 + i) % cap == h0) by {
                            vstd::arithmetic::div_mod::lemma_fundamental_div_mod_converse(
                                h0 + 1 + i,
                                cap,
                                1,
                                h0,
                            );
                        }
                    }
                }
                assert(self@ =~= keep_last(old(self)@.push(item), old(self).cap()));
            }
        }
    }

    pub fn is_empty(&self) -> (r: bool)
        requires
            self.wf(),
        ensures
            r == (self@.len() == 0),
    {
        self.size == 0
    }

    pub fn len(&self) -> (r: usize)
        requires
            self.wf(),
        ensures
            r == self@.len(),
    {
        self.size
    }

    /// The `i`-th oldest item.
    pub fn get(&self, i: usize) -> (r: T)
        requires
            self.wf(),
            i < self@.len(),
        ensures
            r == self@[i as int],
    {
        let pos = if i < self.capacity - self.head {
            self.head + i
        } else {
            i - (self.capacity - self.head)
        };
        proof {
            let cap = self.capacity as int;
            let h = self.head as int;
            if h + i < cap {
                vstd::arithmetic::div_mod::lemma_small_mod((h + i) as nat, cap as nat);
            } else {
                vstd::arithmetic::div_mod::lemma_fundamental_div_mod_converse(
                    h + i,
                    cap,
                    1,
                    h + i - cap,
                );
            }
        }
        self.buffer[pos]
    }

    /// The items in insertion order, oldest first.
    pub fn iter(&self) -> (r: Vec<T>)
        requires
            self.wf(),
        ensures
            r@ == self@,
    {
        let mut out: Vec<T> = Vec::new();
        let mut i: usize = 0;
        while i < self.size
            invariant
                self.wf(),
                i <= self.size,
                out@ == self@.subrange(0, i as int),
            decreases self.size - i,
        {
            out.push(self.get(i));
            i = i + 1;
            assert(out@ =~= self@.subrange(0, i as int));
        }
        assert(out@ =~= self@);
        out
    }
}

/// Pushing into a buffer that holds the last `cap` items of a history gives
/// the last `cap` items of the history extended by the new item.
pub proof fn lemma_keep_last_push<T>(s: Seq<T>, x: T, cap: nat)
    ensures
        keep_last(keep_last(s, cap).push(x), cap) == keep_last(s.push(x), cap),
{
    if s.len() <= cap {
    } else if cap == 0 {
        assert(keep_last(keep_last(s, cap).push(x), cap) =~= keep_last(s.push(x), cap));
    } else {
        assert(keep_last(keep_last(s, cap).push(x), cap) =~= keep_last(s.push(x), cap));
    }
}

/// A buffer of capacity `cap` that received the items of `s` in order holds
/// the last `cap` of them in insertion order; so after `cap + k` pushes
/// (`k > 0`) it holds pushes `k .. cap + k`.
pub proof fn lemma_ring_history<T>(cap: nat, s: Seq<T>)
    ensures
        ring_after(cap, s) == keep_last(s, cap),
        s.len() > cap ==> ring_after(cap, s) == s.subrange(s.len() - cap, s.len() as int),
    decreases s.len(),
{
    if s.len() > 0 {
        lemma_ring_history(cap, s.drop_last());
        lemma_keep_last_push(s.drop_last(), s.last(), cap);
        assert(s.drop_last().push(s.last()) =~= s);
    }
}

} // verus!
