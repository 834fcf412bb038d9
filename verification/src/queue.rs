use crate::linear_data::LinearData;
use crate::stack::Stack;
use vstd::prelude::*;

verus! {

/// A first-in-first-out queue built from two stacks.
///
/// `items` holds the front of the queue, ready to be popped; `backlog` holds
/// what was pushed since, newest on top. The view is the queue from front to
/// back.
pub struct Queue<T> {
    items: Stack<T>,
    backlog: Stack<T>,
}

impl<T> View for Queue<T> {
    type V = Seq<T>;

    closed spec fn view(&self) -> Seq<T> {
        self.items@ + self.backlog@.reverse()
    }
}

impl<T> Queue<T> {
    /// Creates an empty queue.
    pub fn new() -> (queue: Self)
        ensures
            queue@ == Seq::<T>::empty(),
    {
        Queue { items: Stack::new(), backlog: Stack::new() }
    }

    /// Moves the backlog onto the empty front stack, so that the oldest item
    /// ends up on top.
    fn refill(&mut self)
        requires
            old(self).items@.len() == 0,
        ensures
            final(self)@ == old(self)@,
            final(self).items@ == old(self)@,
            final(self).backlog@.len() == 0,
    {
        loop
            invariant
                self.backlog@.reverse() + self.items@ == old(self)@,
            ensures
                self.backlog@.len() == 0,
            decreases self.backlog@.len(),
        {
            match self.backlog.pop() {
                None => {
                    break ;
                },
                Some(item) => {
                    self.items.push(item);
                },
            }
        }
    }

    /// Consumes the queue and returns its items from front to back.
    pub fn into_vec(self) -> (items: Vec<T>)
        ensures
            items@ == self@,
    {
        let mut source = self;
        let mut items: Vec<T> = Vec::new();
        loop
            invariant
                items@ + source@ == self@,
            ensures
                source@.len() == 0,
            decreases source@.len(),
        {
            match source.pop() {
                None => {
                    break ;
                },
                Some(item) => {
                    items.push(item);
                },
            }
        }
        items
    }
}

impl<T> LinearData<T> for Queue<T> {
    open spec fn items(&self) -> Seq<T> {
        self@
    }

    /// Adds `item` at the back of the queue.
    fn push(&mut self, item: T)
        ensures
            final(self)@ == old(self)@.push(item),
    {
        self.backlog.push(item);
        assert(self.items() == old(self).items().insert(old(self).items().len() as int, item));
    }

    /// Removes the item at the front of the queue.
    fn pop(&mut self) -> (removed: Option<T>) {
        if self.items.is_empty() {
            self.refill();
        }
        self.items.pop()
    }

    /// Looks at the item at the front of the queue.
    fn peek(&mut self) -> (next: Option<&T>) {
        if self.items.is_empty() {
            self.refill();
        }
        self.items.peek()
    }

    fn is_empty(&self) -> (empty: bool) {
        self.items.is_empty() && self.backlog.is_empty()
    }
}

impl<T> Default for Queue<T> {
    fn default() -> (queue: Self)
        ensures
            queue@ == Seq::<T>::empty(),
    {
        Queue::new()
    }
}

} // verus!
