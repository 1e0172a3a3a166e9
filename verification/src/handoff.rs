use vstd::prelude::*;

verus! {

/// Fixed-capacity FIFO handoff queue: the only cross-core audio data path.
///
/// A full queue refuses a push and an empty queue refuses a pop; the callers
/// resolve both by waiting and retrying, so back-pressure blocks the producer
/// rather than dropping or overwriting samples. Order is strictly first in,
/// first out.
pub struct HandoffQueue<T> {
    items: Vec<T>,
    capacity: usize,
}

impl<T> HandoffQueue<T> {
    /// The queued items, oldest first: the model of this type.
    pub closed spec fn contents(self) -> Seq<T> {
        self.items@
    }

    /// The fixed capacity the queue was built with.
    pub closed spec fn cap(self) -> nat {
        self.capacity as nat
    }

    pub fn new(capacity: usize) -> (q: Self)
        ensures
            q.contents() == Seq::<T>::empty(),
            q.cap() == capacity,
    {
        HandoffQueue { items: Vec::new(), capacity }
    }

    pub fn len(&self) -> (n: usize)
        ensures
            n == self.contents().len(),
    {
        self.items.len()
    }

    /// Append an item unless the queue is full; a full queue leaves the
    /// contents unchanged and reports the refusal.
    pub fn try_push(&mut self, item: T) -> (pushed: bool)
        ensures
            final(self).cap() == old(self).cap(),
            pushed == (old(self).contents().len() < old(self).cap()),
            pushed ==> final(self).contents() == old(self).contents().push(item),
            !pushed ==> final(self).contents() == old(self).contents(),
    {
        if self.items.len() < self.capacity {
            self.items.push(item);
            true
        } else {
            false
        }
    }

    /// Remove and return the oldest item; an empty queue returns nothing and
    /// is left unchanged.
    pub fn try_pop(&mut self) -> (r: Option<T>)
        ensures
            final(self).cap() == old(self).cap(),
            r is Some <==> old(self).contents().len() > 0,
            old(self).contents().len() > 0 ==> final(self).contents()
                == old(self).contents().drop_first(),
            old(self).contents().len() > 0 ==> (match r {
                Some(item) => item == old(self).contents()[0],
                None => false,
            }),
            old(self).contents().len() == 0 ==> final(self).contents() == old(self).contents(),
    {
        if self.items.len() > 0 {
            let item = self.items.remove(0);
            proof {
                assert(self.items@ =~= old(self).items@.drop_first());
            }
            Some(item)
        } else {
            None
        }
    }
}

} // verus!
