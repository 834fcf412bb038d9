use crate::linear_data::LinearData;
use vstd::prelude::*;

verus! {

/// One cell of the linked list behind a [`Stack`].
struct Node<T> {
    value: T,
    previous: Option<Box<Node<T>>>,
}

/// The values reachable from a link, nearest first.
spec fn chain<T>(link: Option<Box<Node<T>>>) -> Seq<T>
    decreases link,
{
    match link {
        None => Seq::empty(),
        Some(node) => seq![node.value] + chain(node.previous),
    }
}

/// A last-in-first-out stack kept as a singly linked list.
///
/// Its view is the sequence of its items from the top down.
pub struct Stack<T> {
    head: Option<Box<Node<T>>>,
}

impl<T> View for Stack<T> {
    type V = Seq<T>;

    closed spec fn view(&self) -> Seq<T> {
        chain(self.head)
    }
}

impl<T> Stack<T> {
    /// Creates an empty stack.
    pub fn new() -> (stack: Self)
        ensures
            stack@ == Seq::<T>::empty(),
    {
        Stack { head: None }
    }

    /// Consumes the stack and returns one that holds the same items in the
    /// opposite order.
    pub fn reverse(self) -> (reversed: Self)
        ensures
            reversed@ == self@.reverse(),
    {
        let mut source = self;
        let mut reversed = Stack::new();
        loop
            invariant
                reversed@.reverse() + source@ == self@,
            ensures
                source@.len() == 0,
            decreases source@.len(),
        {
            match source.pop() {
                None => {
                    break ;
                },
                Some(x) => {
                    reversed.push(x);
                },
            }
        }
        reversed
    }

    /// Consumes the stack and returns its items from the top down.
    pub fn into_vec(self) -> (items: Vec<T>)
        ensures
            items@ == self@,
    {
        let mut source = self;
        let mut items: Vec<T> = Vec::new();
        loop
            invariant
                items@ + source@ == self@,
            ensures
                source@.len() == 0,
            decreases source@.len(),
        {
            match source.pop() {
                None => {
                    break ;
                },
                Some(x) => {
                    items.push(x);
                },
            }
        }
        items
    }
}

impl<T> LinearData<T> for Stack<T> {
    open spec fn items(&self) -> Seq<T> {
        self@
    }

    /// Puts `value` on top of the stack.
    fn push(&mut self, value: T)
        ensures
            final(self)@ == seq![value] + old(self)@,
    {
        let new_node = Box::new(Node { value, previous: self.head.take() });
        self.head = Some(new_node);
        assert(self.items() == old(self).items().insert(0, value));
    }

    /// Takes the top item off the stack.
    fn pop(&mut self) -> (removed: Option<T>) {
        match self.head.take() {
            None => None,
            Some(node) => {
                let node = *node;
                self.head = node.previous;
                Some(node.value)
            },
        }
    }

    /// Looks at the top item.
    fn peek(&mut self) -> (next: Option<&T>) {
        match &self.head {
            None => None,
            Some(node) => Some(&node.value),
        }
    }

    fn is_empty(&self) -> (empty: bool) {
        self.head.is_none()
    }
}

impl<T> Default for Stack<T> {
    fn default() -> (stack: Self)
        ensures
            stack@ == Seq::<T>::empty(),
    {
        Stack { head: None }
    }
}

} // verus!
