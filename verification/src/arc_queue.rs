use crate::linear_data::LinearData;
use crate::queue::Queue;
use crate::sync::{guarded, lock, new_mutex, share};
use std::sync::Arc;
use std::sync::Mutex;
use vstd::prelude::*;

verus! {

/// A first-in-first-out queue that threads share.
///
/// Every handle made with `clone` leads to the same queue. Each operation
/// takes the lock, performs the operation of [`Queue`] of the same name and
/// releases the lock, so the operations of all threads happen one after the
/// other. What a call finds depends on what the other handles did in the
/// meantime, which is why the contracts here say nothing about the items:
/// what holds of the queue while the lock is held is stated by [`Queue`].
#[verifier::reject_recursive_types(T)]
pub struct ArcQueue<T> {
    items: Arc<Mutex<Queue<T>>>,
}

impl<T> Clone for ArcQueue<T> {
    /// Returns another handle to the same queue: no item is copied.
    fn clone(&self) -> (copy: Self)
        ensures
            copy == *self,
    {
        ArcQueue { items: share(&self.items) }
    }
}

impl<T> ArcQueue<T> {
    /// Creates an empty queue and the first handle to it.
    pub fn new() -> Self {
        ArcQueue { items: Arc::new(new_mutex(Queue::new())) }
    }

    /// Appends `item` at the back of the queue.
    pub fn push(&self, item: T) {
        let mut guard = lock(&self.items);
        let queue = guarded(&mut guard);
        queue.push(item);
    }

    /// Removes the item at the front of the queue, or returns `None` if the
    /// queue is empty at the moment the lock is held.
    pub fn pop(&self) -> Option<T> {
        let mut guard = lock(&self.items);
        let queue = guarded(&mut guard);
        queue.pop()
    }

    /// Tells whether the queue is empty at the moment the lock is held.
    pub fn is_empty(&self) -> bool {
        let mut guard = lock(&self.items);
        let queue = guarded(&mut guard);
        queue.is_empty()
    }
}

impl<T> Default for ArcQueue<T> {
    fn default() -> Self {
        ArcQueue::new()
    }
}

} // verus!
