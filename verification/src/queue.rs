//! Bounded FIFO queues carrying decoded frames and audio samples from the
//! decode thread to their consumers.
//!
//! The queue never blocks and never exceeds its capacity: `try_push` hands
//! the item back when the queue is full, so the producer decides whether to
//! retry or hold it, and `try_pop` returns `None` when the queue is empty.
//! No item is ever dropped by the queue itself — drop decisions belong to
//! the calling component. Each side performs its calls one at a time, so
//! every operation here preserves `wf`, and the capacity bound holds after
//! any interleaving of producer and consumer calls.

use vstd::prelude::*;

verus! {

/// A bounded single-producer/single-consumer queue with a capacity fixed
/// at construction.
pub struct BoundedQueue<T> {
    items: Vec<T>,
    capacity: usize,
}

impl<T> View for BoundedQueue<T> {
    type V = Seq<T>;

    closed spec fn view(&self) -> Seq<T> {
        self.items@
    }
}

impl<T> BoundedQueue<T> {
    /// The capacity fixed at construction.
    pub closed spec fn capacity(self) -> usize {
        self.capacity
    }

    /// The capacity invariant: the queue holds a place for at least one
    /// item and never more items than its capacity.
    pub open spec fn wf(self) -> bool {
        1 <= self.capacity() && self@.len() <= self.capacity()
    }

    /// A fresh empty queue of the given capacity.
    pub fn new(capacity: usize) -> (q: BoundedQueue<T>)
        requires
            1 <= capacity,
        ensures
            q.wf(),
            q.capacity() == capacity,
            q@ == Seq::<T>::empty(),
    {
        BoundedQueue { items: Vec::new(), capacity }
    }

    /// Number of items waiting in the queue.
    pub fn len(&self) -> (n: usize)
        ensures
            n == self@.len(),
    {
        self.items.len()
    }

    pub fn is_empty(&self) -> (r: bool)
        ensures
            r == (self@.len() == 0),
    {
        self.items.len() == 0
    }

    pub fn is_full(&self) -> (r: bool)
        ensures
            r == (self@.len() >= self.capacity()),
    {
        self.items.len() >= self.capacity
    }

    /// Appends `item` when a place is free, else returns it to the caller;
    /// never blocks, never drops the item.
    pub fn try_push(&mut self, item: T) -> (r: Result<(), T>)
        requires
            old(self).wf(),
        ensures
            final(self).wf(),
            final(self).capacity() == old(self).capacity(),
            old(self)@.len() < old(self).capacity() ==> {
                &&& r is Ok
                &&& final(self)@ == old(self)@.push(item)
            },
            old(self)@.len() >= old(self).capacity() ==> {
                &&& r == Result::<(), T>::Err(item)
                &&& *final(self) == *old(self)
            },
    {
        if self.items.len() < self.capacity {
            self.items.push(item);
            Ok(())
        } else {
            Err(item)
        }
    }

    /// Removes and returns the oldest item, or `None` when the queue is
    /// empty; never blocks.
    pub fn try_pop(&mut self) -> (r: Option<T>)
        requires
            old(self).wf(),
        ensures
            final(self).wf(),
            final(self).capacity() == old(self).capacity(),
            old(self)@.len() == 0 ==> r is None && *final(self) == *old(self),
            old(self)@.len() > 0 ==> {
                &&& r == Some(old(self)@[0])
                &&& final(self)@ == old(self)@.drop_first()
            },
    {
        if self.items.len() == 0 {
            None
        } else {
            Some(self.items.remove(0))
        }
    }

    /// Discards everything in the queue; the one operation the consumer
    /// side runs while resynchronizing after a seek.
    pub fn clear(&mut self)
        requires
            old(self).wf(),
        ensures
            final(self).wf(),
            final(self).capacity() == old(self).capacity(),
            final(self)@ == Seq::<T>::empty(),
    {
        self.items.clear();
    }
}

impl<T: Copy> BoundedQueue<T> {
    /// Removes and returns the oldest `n` items, or all of them when fewer
    /// are waiting; the audio callback's bulk pop.
    pub fn pop_up_to(&mut self, n: usize) -> (r: Vec<T>)
        requires
            old(self).wf(),
        ensures
            final(self).wf(),
            final(self).capacity() == old(self).capacity(),
            r@.len() == if n <= old(self)@.len() {
                n as int
            } else {
                old(self)@.len() as int
            },
            r@ == old(self)@.take(r@.len() as int),
            final(self)@ == old(self)@.skip(r@.len() as int),
    {
        let count = if n <= self.items.len() {
            n
        } else {
            self.items.len()
        };
        let mut out: Vec<T> = Vec::new();
        let mut i: usize = 0;
        while i < count
            invariant
                i <= count,
                count <= old(self)@.len(),
                self.capacity == old(self).capacity,
                self@ == old(self)@.skip(i as int),
                out@ == old(self)@.take(i as int),
            decreases count - i,
        {
            let item = self.items.remove(0);
            out.push(item);
            i = i + 1;
            proof {
                assert(self@ =~= old(self)@.skip(i as int));
                assert(out@ =~= old(self)@.take(i as int));
            }
        }
        out
    }
}

/// The capacity bound is an invariant of every operation: whatever state a
/// well-formed queue is in, pushing, popping and clearing leave it
/// well-formed, so no interleaving of producer and consumer calls can make
/// the queue hold more items than its capacity.
pub proof fn lemma_capacity_never_exceeded<T>(q: BoundedQueue<T>)
    requires
        q.wf(),
    ensures
        q@.len() <= q.capacity(),
{
}

} // verus!
