use pooler::{HandlerOutcome, TaskQueue, WorkerStep};
use std::cell::RefCell;

/// Lets the workers take turns, one after the other, until nothing is queued
/// and no handler is running. A handler runs between the turn that hands it
/// the item and the report that it has ended.
fn wait<T>(queue: &mut TaskQueue<T>, handler: &dyn Fn(T)) {
    while !queue.is_drained() {
        for worker in 0..queue.task_count() {
            if let WorkerStep::Run(item) = queue.poll(worker) {
                handler(item);
                queue.complete(worker, HandlerOutcome::Returned);
            }
        }
    }
}

#[test]
fn test_basic_task_execution() {
    let counter = RefCell::new(0usize);
    let mut queue = TaskQueue::new(1);

    for _ in 1..=5 {
        queue.push(1usize);
    }

    wait(&mut queue, &|num: usize| *counter.borrow_mut() += num);
    assert_eq!(
        *counter.borrow(),
        5,
        "The task should have been executed 5 times, incrementing the counter by 1 each time."
    );
}

#[test]
fn test_multiple_workers() {
    let counter = RefCell::new(0usize);
    let mut queue = TaskQueue::new(3);

    for _ in 0..9 {
        queue.push(1usize);
    }

    wait(&mut queue, &|num: usize| *counter.borrow_mut() += num);
    assert_eq!(*counter.borrow(), 9);
}

#[test]
fn test_queue_empty_and_busy() {
    let mut counter = 0usize;
    let mut queue = TaskQueue::new(1);

    assert!(queue.is_empty(), "Queue should be empty initially");
    assert!(!queue.is_busy(), "Queue should not be busy initially");

    queue.push(1usize);

    let step = queue.poll(0);
    assert!(queue.is_busy(), "Queue should be busy while processing");
    assert!(queue.is_empty());
    assert!(!queue.is_drained());

    if let WorkerStep::Run(num) = step {
        counter += num;
    }
    queue.complete(0, HandlerOutcome::Returned);

    assert!(queue.is_drained());
    assert!(!queue.is_busy(), "Queue should not be busy after waiting");
    assert!(queue.is_empty(), "Queue should be empty after processing");
    assert_eq!(counter, 1);
}

#[test]
fn test_concurrent_pushes() {
    // Five producers push ten items each; between the pushes the two
    // workers take turns, each holding an item for a while.
    let counter = RefCell::new(0usize);
    let mut queue = TaskQueue::new(2);
    let mut held: Vec<Option<usize>> = vec![None, None];

    for round in 0..10 {
        for producer in 0..5 {
            queue.push(1usize);
            let worker = (round + producer) % 2;
            if let Some(num) = held[worker].take() {
                *counter.borrow_mut() += num;
                queue.complete(worker, HandlerOutcome::Returned);
            }
            if let WorkerStep::Run(num) = queue.poll(worker) {
                held[worker] = Some(num);
            }
        }
    }
    for worker in 0..2 {
        if let Some(num) = held[worker].take() {
            *counter.borrow_mut() += num;
            queue.complete(worker, HandlerOutcome::Returned);
        }
    }

    wait(&mut queue, &|num: usize| *counter.borrow_mut() += num);
    assert_eq!(*counter.borrow(), 50);
}

#[test]
fn pool_sums_one_two_three() {
    let counter = RefCell::new(0i32);
    let mut pool = TaskQueue::new(1);
    pool.push(1);
    pool.push(2);
    pool.push(3);

    wait(&mut pool, &|n: i32| *counter.borrow_mut() += n);

    assert_eq!(*counter.borrow(), 6);
    assert!(pool.is_empty());
    assert!(!pool.is_busy());
}

#[test]
fn single_worker_handles_items_in_push_order() {
    let seen = RefCell::new(Vec::new());
    let mut pool = TaskQueue::new(1);
    for item in [5, 3, 9, 1, 7] {
        pool.push(item);
    }
    assert_eq!(pool.poll(0), WorkerStep::Run(5));
    seen.borrow_mut().push(5);
    pool.complete(0, HandlerOutcome::Returned);
    pool.push(2);

    wait(&mut pool, &|item: i32| seen.borrow_mut().push(item));
    assert_eq!(*seen.borrow(), vec![5, 3, 9, 1, 7, 2]);
}

#[test]
fn every_item_is_handled_exactly_once_by_several_workers() {
    let mut pool = TaskQueue::new(3);
    let mut handled: Vec<u32> = Vec::new();
    for item in 0..4 {
        pool.push(item);
    }
    // The workers start in the order 2, 0, 1 and end in the order 0, 1, 2.
    assert_eq!(pool.poll(2), WorkerStep::Run(0));
    assert_eq!(pool.poll(0), WorkerStep::Run(1));
    for item in 4..7 {
        pool.push(item);
    }
    assert_eq!(pool.poll(1), WorkerStep::Run(2));
    handled.push(1);
    pool.complete(0, HandlerOutcome::Returned);
    handled.push(2);
    pool.complete(1, HandlerOutcome::Returned);
    assert!(pool.is_busy());
    handled.push(0);
    pool.complete(2, HandlerOutcome::Returned);
    assert!(!pool.is_busy());
    assert!(!pool.is_empty());

    let rest = RefCell::new(Vec::new());
    wait(&mut pool, &|item: u32| rest.borrow_mut().push(item));
    assert_eq!(*rest.borrow(), vec![3, 4, 5, 6]);
    handled.extend(rest.borrow().iter());

    assert_eq!(handled.len(), 7);
    handled.sort();
    assert_eq!(handled, vec![0, 1, 2, 3, 4, 5, 6]);
}

#[test]
fn busy_worker_does_not_take_a_second_item() {
    let mut pool = TaskQueue::new(1);
    pool.push('a');
    pool.push('b');
    assert_eq!(pool.poll(0), WorkerStep::Run('a'));
    assert_eq!(pool.poll(0), WorkerStep::Sleep);
    assert!(pool.is_busy());
    assert!(!pool.is_empty());
    pool.complete(0, HandlerOutcome::Returned);
    assert_eq!(pool.poll(0), WorkerStep::Run('b'));
}

#[test]
fn idle_worker_sleeps_on_an_empty_backlog() {
    let mut pool: TaskQueue<u8> = TaskQueue::new(2);
    assert_eq!(pool.poll(0), WorkerStep::Sleep);
    assert_eq!(pool.poll(1), WorkerStep::Sleep);
    assert!(!pool.is_busy());
    assert!(pool.is_drained());
    assert!(!pool.is_finished(0));
}

#[test]
fn panicking_handler_does_not_stop_the_worker() {
    let mut pool = TaskQueue::new(1);
    let mut handled = Vec::new();
    for item in 1..=4 {
        pool.push(item);
    }
    for _ in 0..4 {
        match pool.poll(0) {
            WorkerStep::Run(2) => pool.complete(0, HandlerOutcome::Panicked),
            WorkerStep::Run(item) => {
                handled.push(item);
                pool.complete(0, HandlerOutcome::Returned);
            }
            other => panic!("the worker should have taken an item, not {:?}", other),
        }
    }
    assert_eq!(handled, vec![1, 3, 4]);
    assert_eq!(pool.task_count(), 1);
    assert!(!pool.is_finished(0));
    assert!(!pool.is_busy());
    assert!(pool.is_drained());
}

#[test]
fn pool_without_workers_never_drains() {
    let mut pool = TaskQueue::new(0);
    assert_eq!(pool.task_count(), 0);
    assert!(pool.is_drained());
    pool.push(1);
    assert_eq!(pool.poll(0), WorkerStep::Exit);
    assert!(!pool.is_empty());
    assert!(!pool.is_busy());
    assert!(!pool.is_drained());
    assert!(pool.is_shut_down());
}

#[test]
fn teardown_waits_for_the_running_handler() {
    let mut pool = TaskQueue::new(2);
    pool.push(10);
    pool.push(20);
    assert_eq!(pool.poll(0), WorkerStep::Run(10));

    pool.cancel(0);
    assert_eq!(pool.poll(0), WorkerStep::Sleep);
    assert!(!pool.is_finished(0));
    assert!(pool.is_busy());

    pool.complete(0, HandlerOutcome::Returned);
    assert!(!pool.is_finished(0));
    assert_eq!(pool.poll(0), WorkerStep::Exit);
    assert!(pool.is_finished(0));
    assert!(!pool.is_shut_down());

    pool.cancel(1);
    assert_eq!(pool.poll(1), WorkerStep::Exit);
    assert!(pool.is_shut_down());
    assert!(!pool.is_busy());
    // The item nobody took is still queued.
    assert!(!pool.is_empty());
    assert_eq!(pool.poll(0), WorkerStep::Exit);
    assert_eq!(pool.poll(1), WorkerStep::Exit);
}

#[test]
fn cancelling_twice_is_cancelling_once() {
    let mut pool: TaskQueue<u8> = TaskQueue::new(1);
    pool.cancel(0);
    pool.cancel(0);
    assert!(!pool.is_finished(0));
    assert_eq!(pool.poll(0), WorkerStep::Exit);
    assert!(pool.is_finished(0));
    pool.cancel(0);
    assert!(pool.is_finished(0));
}

#[test]
fn steps_for_a_worker_that_does_not_exist_change_nothing() {
    let mut pool = TaskQueue::new(1);
    pool.push(1);
    assert_eq!(pool.poll(7), WorkerStep::Exit);
    pool.complete(7, HandlerOutcome::Returned);
    pool.cancel(7);
    assert!(pool.is_finished(7));
    assert!(!pool.is_finished(0));
    assert_eq!(pool.poll(0), WorkerStep::Run(1));
}

#[test]
fn report_without_a_running_handler_changes_nothing() {
    let mut pool = TaskQueue::new(1);
    pool.complete(0, HandlerOutcome::Returned);
    assert!(!pool.is_busy());
    pool.push(3);
    assert_eq!(pool.poll(0), WorkerStep::Run(3));
}
