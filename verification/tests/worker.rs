use pooler::{HandlerOutcome, LinearData, Queue, Task, TaskStep, Worker, WorkerStep};

#[test]
fn new_task_is_idle() {
    let task = Task::new();
    assert!(!task.is_busy());
    assert!(!task.is_canceled());
    assert!(!task.is_finished());
    let task = Task::default();
    assert!(!task.is_busy());
}

#[test]
fn task_turns_invoke_until_cancelled() {
    let mut task = Task::new();
    assert_eq!(task.begin(), TaskStep::Invoke);
    assert!(task.is_busy());
    assert_eq!(task.begin(), TaskStep::Wait);
    task.end(HandlerOutcome::Returned);
    assert!(!task.is_busy());

    assert_eq!(task.begin(), TaskStep::Invoke);
    task.end(HandlerOutcome::Panicked);
    assert!(!task.is_busy());
    assert!(!task.is_finished());

    task.cancel();
    assert!(task.is_canceled());
    assert!(!task.is_finished());
    assert_eq!(task.begin(), TaskStep::Exit);
    assert!(task.is_finished());
    assert!(!task.is_busy());
    assert_eq!(task.begin(), TaskStep::Exit);
}

#[test]
fn task_cancelled_in_the_middle_finishes_after_the_handler() {
    let mut task = Task::new();
    assert_eq!(task.begin(), TaskStep::Invoke);
    task.cancel();
    task.cancel();
    assert!(task.is_busy());
    assert_eq!(task.begin(), TaskStep::Wait);
    assert!(!task.is_finished());
    task.end(HandlerOutcome::Returned);
    assert_eq!(task.begin(), TaskStep::Exit);
    assert!(task.is_finished());
}

#[test]
fn worker_keeps_its_identifier() {
    let mut worker = Worker::new(17);
    assert_eq!(worker.id(), 17);
    worker.cancel();
    assert_eq!(worker.id(), 17);
    assert!(worker.is_canceled());
}

#[test]
fn worker_takes_the_head_of_the_queue() {
    let mut receiver = Queue::new();
    receiver.push("first");
    receiver.push("second");
    let mut worker = Worker::new(0);

    assert_eq!(worker.poll(&mut receiver), WorkerStep::Run("first"));
    assert!(worker.is_busy());
    assert_eq!(worker.poll(&mut receiver), WorkerStep::Sleep);
    assert_eq!(receiver.peek(), Some(&"second"));

    worker.complete(HandlerOutcome::Panicked);
    assert!(!worker.is_busy());
    assert!(!worker.is_finished());
    assert_eq!(worker.poll(&mut receiver), WorkerStep::Run("second"));
    worker.complete(HandlerOutcome::Returned);

    assert_eq!(worker.poll(&mut receiver), WorkerStep::Sleep);
    assert!(!worker.is_busy());
    assert!(receiver.is_empty());
}

#[test]
fn cancelled_worker_leaves_the_queue_alone() {
    let mut receiver = Queue::new();
    receiver.push(1);
    let mut worker = Worker::new(3);
    worker.cancel();
    assert_eq!(worker.poll(&mut receiver), WorkerStep::Exit);
    assert!(worker.is_finished());
    assert!(!worker.is_busy());
    assert_eq!(receiver.pop(), Some(1));
}
