use vstd::prelude::*;

verus! {

/// Something that can be called with a message of type `T` and answers with
/// a value of type `R`.
pub trait Callback<T, R>: Send {
    /// Tells whether the callback may be called with `message`.
    spec fn accepts(&self, message: T) -> bool;

    /// Tells whether `answer` is a possible answer to `message`.
    spec fn answers(&self, message: T, answer: R) -> bool;

    /// Calls the callback.
    fn call(&self, message: T) -> (answer: R)
        requires
            self.accepts(message),
        ensures
            self.answers(message, answer),
    ;
}

/// A closure as a [`Callback`].
struct FnCallback<F> {
    f: F,
}

impl<T, R, F: Fn(T) -> R + Send> Callback<T, R> for FnCallback<F> {
    closed spec fn accepts(&self, message: T) -> bool {
        call_requires(self.f, (message,))
    }

    closed spec fn answers(&self, message: T, answer: R) -> bool {
        call_ensures(self.f, (message,), answer)
    }

    fn call(&self, message: T) -> (answer: R) {
        (self.f)(message)
    }
}

/// A registered handler: a boxed callback that may be called with every
/// message.
#[verifier::reject_recursive_types(T)]
#[verifier::reject_recursive_types(R)]
pub struct Handler<T, R> {
    callback: Box<dyn Callback<T, R>>,
}

impl<T, R> Handler<T, R> {
    #[verifier::type_invariant]
    spec fn callable(self) -> bool {
        forall|message: T| self.callback.accepts(message)
    }

    /// Tells whether `answer` is a possible answer of the handler to
    /// `message`.
    pub closed spec fn answers(&self, message: T, answer: R) -> bool {
        self.callback.answers(message, answer)
    }

    /// Boxes a closure that may be called with every message. The handler
    /// answers what the closure answers.
    pub fn new<F>(handler: F) -> (wrapped: Self) where
        F: Fn(T) -> R + Send + 'static,
        T: 'static,
        R: 'static,

        requires
            forall|message: T| call_requires(handler, (message,)),
        ensures
            forall|message: T, answer: R|
                wrapped.answers(message, answer) <==> call_ensures(handler, (message,), answer),
    {
        let callback = FnCallback { f: handler };
        Handler { callback: Box::new(callback) }
    }

    /// Calls the handler with `message`.
    pub fn call(&self, message: T) -> (answer: R)
        ensures
            self.answers(message, answer),
    {
        proof {
            use_type_invariant(self);
        }
        self.callback.call(message)
    }
}

} // verus!
