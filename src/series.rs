use std::collections::VecDeque;
use vstd::prelude::*;

verus! {

/// The last `n` elements of `s`, in order (all of `s` when it is shorter).
pub open spec fn keep_last<T>(s: Seq<T>, n: int) -> Seq<T> {
    if s.len() <= n {
        s
    } else {
        s.subrange(s.len() - n, s.len() as int)
    }
}

/// Appending to a sequence while retaining at most `max` newest elements.
pub trait PushTotal<T>: View<V = Seq<T>> + Sized {
    /// Adds `new_value` as the newest element, then drops the oldest elements
    /// until at most `max` remain.
    fn push_total(&mut self, new_value: T, max: usize)
        ensures
            final(self)@ == keep_last(old(self)@.push(new_value), max as int),
    ;
}

impl<T> PushTotal<T> for VecDeque<T> {
    fn push_total(&mut self, new_value: T, max: usize) {
        self.push_back(new_value);
        let ghost full = self@;
        while self.len() > max
            invariant
                self@.len() <= full.len(),
                self@ == full.subrange(full.len() - self@.len(), full.len() as int),
                self@.len() == full.len() || self@.len() >= max,
            decreases self@.len(),
        {
            self.pop_front();
        }
        assert(self@ =~= keep_last(full, max as int));
    }
}

/// The contents after appending each of `values`, in order, to a sequence
/// that retains at most `n` newest elements.
pub open spec fn append_each<T>(start: Seq<T>, values: Seq<T>, n: int) -> Seq<T>
    decreases values.len(),
{
    if values.len() == 0 {
        start
    } else {
        keep_last(append_each(start, values.drop_last(), n).push(values.last()), n)
    }
}

/// Trimming to the last `n` before an append changes nothing once the
/// result is trimmed again.
pub proof fn lemma_keep_last_push<T>(s: Seq<T>, v: T, n: int)
    requires
        n >= 0,
    ensures
        keep_last(keep_last(s, n).push(v), n) == keep_last(s.push(v), n),
{
    assert(keep_last(keep_last(s, n).push(v), n) =~= keep_last(s.push(v), n));
}

/// Appending values one at a time to a sequence bounded by `n` retains
/// exactly the last `n` of everything it held and everything appended.
pub proof fn lemma_append_each<T>(start: Seq<T>, values: Seq<T>, n: int)
    requires
        0 <= n,
        start.len() <= n,
    ensures
        append_each(start, values, n) == keep_last(start + values, n),
    decreases values.len(),
{
    if values.len() == 0 {
        assert(start + values =~= start);
    } else {
        let prefix = values.drop_last();
        lemma_append_each(start, prefix, n);
        let whole = start + prefix;
        lemma_keep_last_push(whole, values.last(), n);
        assert(whole.push(values.last()) =~= start + values);
    }
}

/// A series filled from empty holds the last `min(N, capacity)` of the `N`
/// values appended to it, in the order they were appended.
pub proof fn lemma_fill_from_empty<T>(values: Seq<T>, capacity: nat)
    ensures
        append_each(Seq::<T>::empty(), values, capacity as int) == keep_last(
            values,
            capacity as int,
        ),
        append_each(Seq::<T>::empty(), values, capacity as int).len() == if values.len()
            <= capacity {
            values.len()
        } else {
            capacity
        },
        forall|i: int|
            0 <= i < append_each(Seq::<T>::empty(), values, capacity as int).len() ==> #[trigger]
            append_each(Seq::<T>::empty(), values, capacity as int)[i] == values[values.len()
                - append_each(Seq::<T>::empty(), values, capacity as int).len() + i],
{
    lemma_append_each(Seq::<T>::empty(), values, capacity as int);
    assert(Seq::<T>::empty() + values =~= values);
}

/// A sequence of samples with a fixed capacity: appending beyond the
/// capacity evicts the oldest samples. Index 0 is the oldest retained sample.
pub struct BoundedSeries<T> {
    items: VecDeque<T>,
    capacity: usize,
}

impl<T> View for BoundedSeries<T> {
    type V = Seq<T>;

    closed spec fn view(&self) -> Seq<T> {
        self.items@
    }
}

impl<T: Copy> BoundedSeries<T> {
    /// The most samples this series retains.
    pub closed spec fn cap(&self) -> nat {
        self.capacity as nat
    }

    /// The series holds no more samples than its capacity.
    pub closed spec fn wf(&self) -> bool {
        self.items@.len() <= self.capacity
    }

    /// An empty series that retains at most `capacity` samples.
    pub fn new(capacity: usize) -> (r: Self)
        ensures
            r.wf(),
            r@ == Seq::<T>::empty(),
            r.cap() == capacity,
    {
        BoundedSeries { items: VecDeque::new(), capacity }
    }

    pub fn capacity(&self) -> (r: usize)
        ensures
            r == self.cap(),
    {
        self.capacity
    }

    pub fn len(&self) -> (r: usize)
        ensures
            r == self@.len(),
    {
        self.items.len()
    }

    pub fn is_empty(&self) -> (r: bool)
        ensures
            r == (self@.len() == 0),
    {
        self.items.len() == 0
    }

    /// Adds `value` as the newest sample, evicting the oldest one if the
    /// series would otherwise exceed its capacity.
    pub fn append(&mut self, value: T)
        requires
            old(self).wf(),
        ensures
            final(self).wf(),
            final(self).cap() == old(self).cap(),
            final(self)@ == keep_last(old(self)@.push(value), old(self).cap() as int),
            final(self)@.len() <= final(self).cap(),
    {
        self.items.push_total(value, self.capacity);
    }

    /// Appends each of `values` in order.
    pub fn append_all(&mut self, values: &Vec<T>)
        requires
            old(self).wf(),
        ensures
            final(self).wf(),
            final(self).cap() == old(self).cap(),
            final(self)@ == append_each(old(self)@, values@, old(self).cap() as int),
            final(self)@ == keep_last(old(self)@ + values@, old(self).cap() as int),
    {
        let mut i: usize = 0;
        while i < values.len()
            invariant
                i <= values.len(),
                self.wf(),
                self.cap() == old(self).cap(),
                self@ == append_each(old(self)@, values@.take(i as int), self.cap() as int),
            decreases values.len() - i,
        {
            self.append(values[i]);
            proof {
                assert(values@.take(i + 1).drop_last() =~= values@.take(i as int));
            }
            i = i + 1;
        }
        proof {
            assert(values@.take(i as int) =~= values@);
            lemma_append_each(old(self)@, values@, self.cap() as int);
        }
    }

    /// A copy of the current contents, oldest first.
    pub fn snapshot(&self) -> (r: Vec<T>)
        requires
            self.wf(),
        ensures
            r@ == self@,
            r@.len() <= self.cap(),
    {
        let mut out: Vec<T> = Vec::new();
        let mut i: usize = 0;
        while i < self.items.len()
            invariant
                i <= self@.len(),
                out@ == self@.take(i as int),
            decreases self@.len() - i,
        {
            out.push(self.items[i]);
            proof {
                assert(out@ =~= self@.take(i + 1));
            }
            i = i + 1;
        }
        proof {
            assert(out@ =~= self@);
        }
        out
    }

    /// The newest sample, if any.
    pub fn latest(&self) -> (r: Option<T>)
        ensures
            r == if self@.len() == 0 {
                None
            } else {
                Some(self@.last())
            },
    {
        let n = self.items.len();
        if n == 0 {
            None
        } else {
            Some(self.items[n - 1])
        }
    }
}

} // verus!
