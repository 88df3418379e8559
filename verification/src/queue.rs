use vstd::prelude::*;

verus! {

/// A bounded first-in-first-out queue, the channel between two pipeline
/// stages. A producer may push only while there is room; a caller that finds
/// the queue full waits and retries, which is the pipeline's backpressure.
pub struct BoundedQueue<T> {
    items: Vec<T>,
    capacity: usize,
}

impl<T> View for BoundedQueue<T> {
    type V = Seq<T>;

    closed spec fn view(&self) -> Seq<T> {
        self.items@
    }
}

impl<T> BoundedQueue<T> {
    /// The fixed capacity the queue was made with.
    pub closed spec fn cap(&self) -> nat {
        self.capacity as nat
    }

    /// Internal consistency: the queue never holds more than its capacity.
    pub closed spec fn inv(&self) -> bool {
        self@.len() <= self.cap() && self.cap() >= 1
    }

    /// An empty queue of the given capacity.
    pub fn new(capacity: usize) -> (q: BoundedQueue<T>)
        requires
            capacity >= 1,
        ensures
            q.inv(),
            q@ == Seq::<T>::empty(),
            q.cap() == capacity,
    {
        BoundedQueue { items: Vec::new(), capacity }
    }

    /// How many units are queued.
    pub fn len(&self) -> (n: usize)
        ensures
            n == self@.len(),
    {
        self.items.len()
    }

    /// Whether a push is allowed right now.
    pub fn has_room(&self) -> (b: bool)
        ensures
            b == (self@.len() < self.cap()),
    {
        self.items.len() < self.capacity
    }

    /// Appends a unit. The caller has seen room; with none it must wait.
    pub fn push(&mut self, item: T)
        requires
            old(self).inv(),
            old(self)@.len() < old(self).cap(),
        ensures
            final(self).inv(),
            final(self).cap() == old(self).cap(),
            final(self)@ == old(self)@.push(item),
    {
        self.items.push(item);
    }

    /// Removes and returns the oldest unit, or `None` on an empty queue.
    pub fn pop(&mut self) -> (r: Option<T>)
        requires
            old(self).inv(),
        ensures
            final(self).inv(),
            final(self).cap() == old(self).cap(),
            match r {
                Some(item) => old(self)@.len() > 0 && item == old(self)@[0] && final(self)@ == old(
                    self,
                )@.remove(0),
                None => old(self)@.len() == 0 && final(self)@ == old(self)@,
            },
    {
        if self.items.len() == 0 {
            None
        } else {
            Some(self.items.remove(0))
        }
    }
}

} // verus!
