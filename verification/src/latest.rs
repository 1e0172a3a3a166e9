use vstd::prelude::*;

verus! {

/// Single-slot latest-value cell with per-reader delivery flags.
///
/// A publish overwrites the slot and marks it unseen for every reader at
/// once; each reader's non-blocking poll returns the value at most once per
/// publish. There is no queueing: a slow reader only ever sees the most
/// recent value.
pub struct LatestCell<T> {
    value: Option<T>,
    seen: Vec<bool>,
}

impl<T: Copy> LatestCell<T> {
    /// The value currently held, if any was ever published.
    pub closed spec fn current(self) -> Option<T> {
        self.value
    }

    /// One flag per reader: whether that reader has consumed the current value.
    pub closed spec fn seen_flags(self) -> Seq<bool> {
        self.seen@
    }

    /// Number of readers the cell was built for.
    pub open spec fn readers(self) -> nat {
        self.seen_flags().len()
    }

    pub fn new(readers: usize) -> (c: Self)
        ensures
            c.current() is None,
            c.readers() == readers,
            forall|i: int| 0 <= i < readers ==> !c.seen_flags()[i],
    {
        let mut seen: Vec<bool> = Vec::new();
        let mut i: usize = 0;
        while i < readers
            invariant
                i <= readers,
                seen@.len() == i,
                forall|j: int| 0 <= j < i ==> !seen@[j],
            decreases readers - i,
        {
            seen.push(false);
            i = i + 1;
        }
        LatestCell { value: None, seen }
    }

    /// Publish a new value: overwrite the slot and mark it unseen for all
    /// readers.
    pub fn publish(&mut self, v: T)
        ensures
            final(self).current() == Some(v),
            final(self).readers() == old(self).readers(),
            forall|i: int| 0 <= i < final(self).readers() ==> !final(self).seen_flags()[i],
    {
        self.value = Some(v);
        let readers = self.seen.len();
        let mut i: usize = 0;
        while i < readers
            invariant
                i <= readers,
                self.value == Some(v),
                self.seen@.len() == readers,
                forall|j: int| 0 <= j < i ==> !self.seen@[j],
            decreases readers - i,
        {
            self.seen.set(i, false);
            i = i + 1;
        }
    }

    /// Non-blocking poll by reader `reader`: returns the current value only
    /// if one was published and this reader has not consumed it yet, and
    /// marks it consumed.
    pub fn try_get(&mut self, reader: usize) -> (r: Option<T>)
        requires
            reader < old(self).readers(),
        ensures
            final(self).current() == old(self).current(),
            final(self).readers() == old(self).readers(),
            r is Some <==> (old(self).current() is Some && !old(self).seen_flags()[reader as int]),
            r is Some ==> r == old(self).current() && final(self).seen_flags()
                == old(self).seen_flags().update(reader as int, true),
            r is None ==> final(self).seen_flags() == old(self).seen_flags(),
    {
        if self.seen[reader] {
            return None;
        }
        match &self.value {
            Some(v) => {
                self.seen.set(reader, true);
                Some(*v)
            },
            None => None,
        }
    }
}

} // verus!
