use pooler::Signal;
use std::sync::atomic::{AtomicU32, Ordering};
use std::sync::Arc;

#[test]
fn test_new_signal() {
    let signal = Signal::new(42);
    assert_eq!(signal.get(), 42);
}

#[test]
fn test_signal_set_get() {
    let signal = Signal::new(0);
    signal.set(42);
    assert_eq!(signal.get(), 42);
}

#[test]
fn test_signal_callback() {
    let signal = Signal::new(0);
    let counter = Arc::new(AtomicU32::new(0));
    let counter_clone = counter.clone();

    signal.listen(move |value| {
        assert_eq!(*value, 42);
        counter_clone.fetch_add(1, Ordering::SeqCst);
    });

    signal.set(42);
    assert_eq!(counter.load(Ordering::SeqCst), 1);
}

#[test]
fn test_multiple_callbacks() {
    let signal = Signal::new(0);
    let counter = Arc::new(AtomicU32::new(0));

    for _ in 0..3 {
        let counter_clone = counter.clone();
        signal.listen(move |_| {
            counter_clone.fetch_add(1, Ordering::SeqCst);
        });
    }

    signal.set(42);
    assert_eq!(counter.load(Ordering::SeqCst), 3);
}

#[test]
fn test_signal_clone() {
    let signal1 = Signal::new(0);
    let signal2 = signal1.clone();

    let counter = Arc::new(AtomicU32::new(0));
    let counter_clone = counter.clone();

    signal1.listen(move |value| {
        assert_eq!(*value, 42);
        counter_clone.fetch_add(1, Ordering::SeqCst);
    });

    signal2.set(42);
    assert_eq!(counter.load(Ordering::SeqCst), 1);
    assert_eq!(signal1.get(), 42);
    assert_eq!(signal2.get(), 42);
}

#[test]
fn test_signal_default() {
    let signal: Signal<i32> = Signal::default();
    assert_eq!(signal.get(), 0);
}

#[test]
fn signal_calls_listeners_in_the_order_they_were_added() {
    let signal = Signal::new(String::new());
    let seen = Arc::new(std::sync::Mutex::new(Vec::new()));
    for tag in ["a", "b", "c"] {
        let seen = seen.clone();
        signal.listen(move |value: &String| {
            seen.lock().unwrap().push(format!("{}{}", tag, value));
        });
    }
    signal.set("1".to_string());
    signal.set("2".to_string());
    assert_eq!(
        *seen.lock().unwrap(),
        vec!["a1", "b1", "c1", "a2", "b2", "c2"]
    );
}

#[test]
fn signal_does_not_call_listeners_before_a_set() {
    let signal = Signal::new(7);
    let counter = Arc::new(AtomicU32::new(0));
    let counter_clone = counter.clone();
    signal.listen(move |_| {
        counter_clone.fetch_add(1, Ordering::SeqCst);
    });
    assert_eq!(signal.get(), 7);
    assert_eq!(counter.load(Ordering::SeqCst), 0);
}

#[test]
fn subscription_passes_the_value_to_its_closure() {
    let seen = Arc::new(std::sync::Mutex::new(Vec::new()));
    let seen_clone = seen.clone();
    let subscription = pooler::signal::Subscription::new(move |value: &i32| {
        seen_clone.lock().unwrap().push(*value);
    });
    subscription.call(&4);
    subscription.call(&9);
    assert_eq!(*seen.lock().unwrap(), vec![4, 9]);
}

#[test]
fn listener_may_read_its_own_signal() {
    let signal = Signal::new(1);
    let seen = Arc::new(std::sync::Mutex::new(Vec::new()));
    let seen_clone = seen.clone();
    let inner = signal.clone();
    signal.listen(move |value: &i32| {
        seen_clone.lock().unwrap().push((*value, inner.get()));
    });
    signal.set(2);
    signal.set(3);
    assert_eq!(*seen.lock().unwrap(), vec![(2, 2), (3, 3)]);
}

#[test]
fn listener_may_register_another_listener() {
    let signal = Signal::new(0);
    let counter = Arc::new(AtomicU32::new(0));
    let counter_clone = counter.clone();
    let inner = signal.clone();
    signal.listen(move |_: &i32| {
        let counter = counter_clone.clone();
        inner.listen(move |_: &i32| {
            counter.fetch_add(1, Ordering::SeqCst);
        });
    });
    // The listener added during the first set is told of the second only.
    signal.set(1);
    assert_eq!(counter.load(Ordering::SeqCst), 0);
    signal.set(2);
    assert_eq!(counter.load(Ordering::SeqCst), 1);
}

#[test]
fn signal_state_hands_out_a_notice_for_the_listeners_of_the_moment() {
    let seen = Arc::new(std::sync::Mutex::new(Vec::new()));
    let mut state = pooler::SignalState::new(10);
    assert_eq!(*state.get(), 10);

    let first = state.set(11);
    assert_eq!(*state.get(), 11);
    first.deliver();
    assert!(seen.lock().unwrap().is_empty());

    for tag in ["a", "b"] {
        let seen = seen.clone();
        state.listen(pooler::signal::Subscription::new(move |value: &i32| {
            seen.lock().unwrap().push((tag, *value));
        }));
    }
    let second = state.set(12);
    let seen_late = seen.clone();
    state.listen(pooler::signal::Subscription::new(move |value: &i32| {
        seen_late.lock().unwrap().push(("late", *value));
    }));
    // Nothing was called yet, and the late listener is not on the notice.
    assert!(seen.lock().unwrap().is_empty());
    second.deliver();
    assert_eq!(*seen.lock().unwrap(), vec![("a", 12), ("b", 12)]);
    assert_eq!(*state.get(), 12);
}
