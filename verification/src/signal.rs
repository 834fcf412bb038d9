use crate::sync::{guarded, lock, new_mutex, share};
use std::sync::Arc;
use std::sync::Mutex;
use vstd::prelude::*;

verus! {

/// Something that can be told the new value of a signal.
pub trait Listener<T>: Send + Sync {
    /// Tells whether the listener may be called with `value`.
    spec fn accepts(&self, value: &T) -> bool;

    /// Tells whether a call with `value` may come back: what the listener
    /// promises of a call that it has taken.
    spec fn tells(&self, value: &T) -> bool;

    /// Tells the listener the new value.
    fn call(&self, value: &T)
        requires
            self.accepts(value),
        ensures
            self.tells(value),
    ;
}

/// A closure as a [`Listener`].
struct FnListener<F> {
    f: F,
}

impl<T, F: Fn(&T) + Send + Sync> Listener<T> for FnListener<F> {
    closed spec fn accepts(&self, value: &T) -> bool {
        call_requires(self.f, (value,))
    }

    closed spec fn tells(&self, value: &T) -> bool {
        call_ensures(self.f, (value,), ())
    }

    fn call(&self, value: &T) {
        (self.f)(value)
    }
}

/// A registered listener: a boxed callback that may be called with every
/// value.
#[verifier::reject_recursive_types(T)]
pub struct Subscription<T> {
    listener: Box<dyn Listener<T>>,
}

impl<T> Subscription<T> {
    #[verifier::type_invariant]
    spec fn callable(self) -> bool {
        forall|value: T| self.listener.accepts(&value)
    }

    /// Tells whether a call of the subscription with `value` may come back:
    /// what the listener promises of a call that it has taken.
    pub closed spec fn tells(&self, value: &T) -> bool {
        self.listener.tells(value)
    }

    /// Boxes a closure that may be called with every value.
    ///
    /// A call of the subscription is a call of the closure, so the
    /// subscription promises of a call exactly what the closure promises.
    pub fn new<F>(callback: F) -> (subscription: Self) where
        F: Fn(&T) + Send + Sync + 'static,
        T: 'static,

        requires
            forall|value: T| call_requires(callback, (&value,)),
        ensures
            forall|value: T|
                subscription.tells(&value) <==> call_ensures(callback, (&value,), ()),
    {
        Subscription { listener: Box::new(FnListener { f: callback }) }
    }

    /// Tells the listener the new value.
    pub fn call(&self, value: &T)
        ensures
            self.tells(value),
    {
        proof {
            use_type_invariant(self);
        }
        self.listener.call(value)
    }
}

/// What a signal holds, as a mathematical value.
#[verifier::reject_recursive_types(T)]
pub struct SignalView<T> {
    /// The value last stored.
    pub value: T,
    /// The listeners, oldest first.
    pub listeners: Seq<Subscription<T>>,
}

/// What has to be done after a value was stored: tell it to the listeners
/// that were registered at that moment.
#[verifier::reject_recursive_types(T)]
pub struct Notice<T> {
    value: Arc<T>,
    listeners: Vec<Arc<Subscription<T>>>,
    previous: Arc<T>,
}

impl<T> Notice<T> {
    /// The value that was stored.
    pub closed spec fn value(&self) -> T {
        *self.value
    }

    /// The value that it replaced.
    pub closed spec fn previous(&self) -> T {
        *self.previous
    }

    /// The listeners to be told, oldest first.
    pub closed spec fn listeners(&self) -> Seq<Subscription<T>> {
        Seq::new(self.listeners@.len(), |i: int| *self.listeners@[i])
    }

    /// Calls every listener with the stored value, oldest first, and then
    /// lets go of the value that was replaced.
    pub fn deliver(self)
        ensures
            forall|i: int|
                0 <= i < self.listeners().len() ==> (#[trigger] self.listeners()[i]).tells(
                    &self.value(),
                ),
    {
        let mut i: usize = 0;
        while i < self.listeners.len()
            invariant
                i <= self.listeners@.len(),
                forall|j: int|
                    0 <= j < i ==> (#[trigger] self.listeners()[j]).tells(&self.value()),
            decreases self.listeners@.len() - i,
        {
            self.listeners[i].call(&*self.value);
            assert(self.listeners()[i as int] == *self.listeners@[i as int]);
            i += 1;
        }
    }
}

/// The value and the listeners of a signal, owned by one holder.
///
/// Every method is one step that runs no code of a listener, so a holder
/// may keep the state behind a lock and take each step with the lock held.
#[verifier::reject_recursive_types(T)]
pub struct SignalState<T> {
    value: Arc<T>,
    callbacks: Vec<Arc<Subscription<T>>>,
}

impl<T> View for SignalState<T> {
    type V = SignalView<T>;

    closed spec fn view(&self) -> SignalView<T> {
        SignalView {
            value: *self.value,
            listeners: Seq::new(self.callbacks@.len(), |i: int| *self.callbacks@[i]),
        }
    }
}

impl<T> SignalState<T> {
    /// Creates the state that holds `initial_value` and has no listeners.
    pub fn new(initial_value: T) -> (state: Self)
        ensures
            state@.value == initial_value,
            state@.listeners == Seq::<Subscription<T>>::empty(),
    {
        let state = SignalState { value: Arc::new(initial_value), callbacks: Vec::new() };
        assert(state@.listeners =~= Seq::<Subscription<T>>::empty());
        state
    }

    /// Stores `new_value` and returns the notice for the listeners that are
    /// registered now. No listener is called and the value that is replaced
    /// is handed out with the notice.
    pub fn set(&mut self, new_value: T) -> (notice: Notice<T>)
        ensures
            final(self)@.value == new_value,
            final(self)@.listeners == old(self)@.listeners,
            notice.value() == new_value,
            notice.previous() == old(self)@.value,
            notice.listeners() == old(self)@.listeners,
    {
        let mut previous = Arc::new(new_value);
        core::mem::swap(&mut self.value, &mut previous);
        let value = share(&self.value);
        let mut listeners: Vec<Arc<Subscription<T>>> = Vec::new();
        let mut i: usize = 0;
        while i < self.callbacks.len()
            invariant
                i <= self.callbacks@.len(),
                listeners@.len() == i,
                forall|j: int| 0 <= j < i ==> *listeners@[j] == *self.callbacks@[j],
            decreases self.callbacks@.len() - i,
        {
            listeners.push(share(&self.callbacks[i]));
            i += 1;
        }
        let notice = Notice { value, listeners, previous };
        assert(notice.listeners() =~= old(self)@.listeners);
        assert(self@.listeners =~= old(self)@.listeners);
        notice
    }

    /// Returns the value held, shared with the state.
    pub fn get(&self) -> (value: Arc<T>)
        ensures
            *value == self@.value,
    {
        share(&self.value)
    }

    /// Adds a listener behind those already there.
    pub fn listen(&mut self, subscription: Subscription<T>)
        ensures
            final(self)@.value == old(self)@.value,
            final(self)@.listeners == old(self)@.listeners.push(subscription),
    {
        self.callbacks.push(Arc::new(subscription));
        assert(self@.listeners =~= old(self)@.listeners.push(subscription));
    }
}

/// A value that threads share and that tells its listeners when it is set.
///
/// Every handle made with `clone` leads to the same [`SignalState`]. Each
/// operation takes the lock for one step of the state and releases it
/// before any listener or any code of `T` runs. What a call finds depends
/// on what the other handles did in the meantime, so the contracts here say
/// nothing about the value: what holds while the lock is held is stated by
/// [`SignalState`].
#[verifier::reject_recursive_types(T)]
pub struct Signal<T> {
    state: Arc<Mutex<SignalState<T>>>,
}

impl<T> Clone for Signal<T> {
    /// Returns another handle to the same value and listeners.
    fn clone(&self) -> (copy: Self)
        ensures
            copy == *self,
    {
        Signal { state: share(&self.state) }
    }
}

impl<T> Signal<T> where T: Send + Sync + 'static {
    /// Creates a signal that holds `initial_value` and has no listeners.
    pub fn new(initial_value: T) -> Self {
        Signal { state: Arc::new(new_mutex(SignalState::new(initial_value))) }
    }

    /// Stores `new_value` and then calls every listener that was registered
    /// at that moment with it, in the order in which they were added. The
    /// listeners run after the lock was released, so they may use the
    /// signal themselves.
    pub fn set(&self, new_value: T) {
        let notice = {
            let mut guard = lock(&self.state);
            let state = guarded(&mut guard);
            state.set(new_value)
        };
        notice.deliver();
    }

    /// Returns a clone of the value held at the moment the lock is held.
    /// The clone is made after the lock was released.
    pub fn get(&self) -> T where T: Clone {
        let value = {
            let mut guard = lock(&self.state);
            let state = guarded(&mut guard);
            state.get()
        };
        T::clone(&value)
    }

    /// Adds a listener behind those already there. The listener has to
    /// accept every value.
    pub fn listen<F>(&self, callback: F) where F: Fn(&T) + Send + Sync + 'static
        requires
            forall|value: T| call_requires(callback, (&value,)),
    {
        let subscription = Subscription::new(callback);
        let mut guard = lock(&self.state);
        let state = guarded(&mut guard);
        state.listen(subscription);
    }
}

impl<T> Default for Signal<T> where T: Default + Send + Sync + 'static {
    /// Creates a signal that holds the default value of `T`.
    fn default() -> Self {
        Signal::new(T::default())
    }
}

} // verus!
