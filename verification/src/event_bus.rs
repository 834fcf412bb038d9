use crate::callback::Handler;
use vstd::prelude::*;

verus! {

/// A publish/subscribe bus: every message is passed to every handler, in the
/// order in which the handlers were added.
#[verifier::reject_recursive_types(T)]
pub struct EventBus<T> {
    handlers: Vec<Handler<T, ()>>,
}

impl<T> View for EventBus<T> {
    type V = Seq<Handler<T, ()>>;

    /// The handlers, oldest first.
    closed spec fn view(&self) -> Seq<Handler<T, ()>> {
        self.handlers@
    }
}

impl<T> EventBus<T> where T: Copy {
    /// Creates a bus without handlers.
    pub fn new() -> (bus: Self)
        ensures
            bus@.len() == 0,
    {
        EventBus { handlers: Vec::new() }
    }

    /// The number of handlers.
    pub fn handler_count(&self) -> (count: usize)
        ensures
            count == self@.len(),
    {
        self.handlers.len()
    }

    /// Adds a handler behind those already there. The handler has to accept
    /// every message.
    pub fn add_handler<F>(&mut self, handler: F) where F: Fn(T) + Send + 'static, T: 'static
        requires
            forall|message: T| call_requires(handler, (message,)),
        ensures
            final(self)@.len() == old(self)@.len() + 1,
            final(self)@.drop_last() == old(self)@,
            forall|message: T, answer: ()|
                final(self)@.last().answers(message, answer) <==> call_ensures(
                    handler,
                    (message,),
                    answer,
                ),
    {
        let wrapped = Handler::new(handler);
        self.handlers.push(wrapped);
    }

    /// Passes `message` to every handler, oldest first. When the call comes
    /// back, every handler has taken the message and has come back.
    pub fn notify(&self, message: T)
        ensures
            forall|i: int| 0 <= i < self@.len() ==> (#[trigger] self@[i]).answers(message, ()),
    {
        let mut i: usize = 0;
        while i < self.handlers.len()
            invariant
                i <= self@.len(),
                forall|j: int| 0 <= j < i ==> (#[trigger] self@[j]).answers(message, ()),
            decreases self@.len() - i,
        {
            self.handlers[i].call(message);
            i += 1;
        }
    }
}

} // verus!
