use crate::callback::Handler;
use vstd::prelude::*;

verus! {

/// A list of handlers through which a message travels until one of them
/// stops it.
///
/// A handler answers `true` to stop the message and `false` to let it go on
/// to the handler added after it.
#[verifier::reject_recursive_types(T)]
pub struct MessageQueue<T> {
    handlers: Vec<Handler<T, bool>>,
}

impl<T> View for MessageQueue<T> {
    type V = Seq<Handler<T, bool>>;

    /// The handlers, oldest first.
    closed spec fn view(&self) -> Seq<Handler<T, bool>> {
        self.handlers@
    }
}

impl<T> MessageQueue<T> where T: Copy {
    /// Tells whether `message` may get as far as the position `at` and no
    /// further: every handler before `at` lets it go on, and the handler at
    /// `at`, if there is one, stops it. With `at` the number of handlers,
    /// the message has passed them all.
    pub open spec fn stops_at(&self, message: T, at: int) -> bool {
        &&& 0 <= at <= self@.len()
        &&& forall|i: int| 0 <= i < at ==> (#[trigger] self@[i]).answers(message, false)
        &&& at < self@.len() ==> self@[at].answers(message, true)
    }

    /// Creates a queue without handlers.
    pub fn new() -> (queue: Self)
        ensures
            queue@.len() == 0,
    {
        MessageQueue { handlers: Vec::new() }
    }

    /// The number of handlers.
    pub fn handler_count(&self) -> (count: usize)
        ensures
            count == self@.len(),
    {
        self.handlers.len()
    }

    /// Adds a handler behind those already there. The handler has to accept
    /// every message.
    pub fn add_handler<F>(&mut self, handler: F) where
        F: Fn(T) -> bool + Send + 'static,
        T: 'static,

        requires
            forall|message: T| call_requires(handler, (message,)),
        ensures
            final(self)@.len() == old(self)@.len() + 1,
            final(self)@.drop_last() == old(self)@,
            forall|message: T, stop: bool|
                final(self)@.last().answers(message, stop) <==> call_ensures(
                    handler,
                    (message,),
                    stop,
                ),
    {
        let wrapped = Handler::new(handler);
        self.handlers.push(wrapped);
    }

    /// Passes `message` to the handlers, oldest first, until one of them
    /// stops it, and returns the position of that handler. Returns `None`
    /// when every handler let the message go on.
    pub fn deliver(&self, message: T) -> (stopped_at: Option<usize>)
        ensures
            match stopped_at {
                Some(at) => at < self@.len() && self.stops_at(message, at as int),
                None => self.stops_at(message, self@.len() as int),
            },
    {
        let mut i: usize = 0;
        while i < self.handlers.len()
            invariant
                i <= self@.len(),
                forall|j: int| 0 <= j < i ==> (#[trigger] self@[j]).answers(message, false),
            decreases self@.len() - i,
        {
            if self.handlers[i].call(message) {
                return Some(i);
            }
            i += 1;
        }
        None
    }

    /// Passes `message` to the handlers, oldest first, until one of them
    /// stops it: the handlers up to some position have taken the message,
    /// and the one at that position, if there is one, has stopped it.
    pub fn notify(&self, message: T)
        ensures
            exists|at: int| self.stops_at(message, at),
    {
        match self.deliver(message) {
            Some(at) => {
                assert(self.stops_at(message, at as int));
            },
            None => {
                assert(self.stops_at(message, self@.len() as int));
            },
        }
    }
}

impl<T> Default for MessageQueue<T> {
    fn default() -> (queue: Self)
        ensures
            queue@.len() == 0,
    {
        MessageQueue { handlers: Vec::new() }
    }
}

} // verus!
