use crate::linear_data::LinearData;
use crate::queue::Queue;
use crate::task::{HandlerOutcome, Task, TaskState, TaskStep};
use vstd::prelude::*;

verus! {

/// What a worker does after it has looked at the queue.
#[derive(Debug, PartialEq, Eq)]
pub enum WorkerStep<T> {
    /// Leave the loop: the worker was cancelled.
    Exit,
    /// Hand this item to the handler, then report how the handler ended.
    Run(T),
    /// Nothing to do now: sleep for a short while and look again.
    Sleep,
}

/// What a worker in `state` does when it finds `backlog` in the queue.
pub open spec fn poll_step<T>(state: TaskState, backlog: Seq<T>) -> WorkerStep<T> {
    match state.step() {
        TaskStep::Exit => WorkerStep::Exit,
        TaskStep::Wait => WorkerStep::Sleep,
        TaskStep::Invoke => if backlog.len() > 0 {
            WorkerStep::Run(backlog[0])
        } else {
            WorkerStep::Sleep
        },
    }
}

/// The state of the worker after that look at the queue: busy exactly if it
/// took an item, finished if it was idle and cancelled.
pub open spec fn poll_state<T>(state: TaskState, backlog: Seq<T>) -> TaskState {
    if state.step() == TaskStep::Invoke && backlog.len() == 0 {
        state
    } else {
        state.begin()
    }
}

/// The queue after that look: the head is gone exactly if the worker took it.
pub open spec fn poll_backlog<T>(state: TaskState, backlog: Seq<T>) -> Seq<T> {
    if state.step() == TaskStep::Invoke && backlog.len() > 0 {
        backlog.skip(1)
    } else {
        backlog
    }
}

/// One worker of a pool: a background context with an identifier that takes
/// its work from a queue.
///
/// Each turn of its loop is one call of [`Worker::poll`]; the handler is run
/// by whoever drives the worker, who reports back with [`Worker::complete`].
#[derive(Debug)]
pub struct Worker {
    id: usize,
    task: Task,
}

impl View for Worker {
    type V = TaskState;

    closed spec fn view(&self) -> TaskState {
        self.task@
    }
}

impl Worker {
    /// The identifier the worker was created with.
    pub closed spec fn spec_id(&self) -> usize {
        self.id
    }

    /// Creates an idle worker with the given identifier.
    pub fn new(id: usize) -> (worker: Self)
        ensures
            worker@ == TaskState::idle(),
            worker.spec_id() == id,
    {
        Worker { id, task: Task::new() }
    }

    /// The identifier of this worker.
    #[verifier::when_used_as_spec(spec_id)]
    pub fn id(&self) -> (id: usize)
        ensures
            id == self.spec_id(),
    {
        self.id
    }

    /// Tells whether the worker has left its loop.
    pub fn is_finished(&self) -> (finished: bool)
        ensures
            finished == self@.finished,
    {
        self.task.is_finished()
    }

    /// Tells whether the worker is in the middle of a handler invocation.
    pub fn is_busy(&self) -> (busy: bool)
        ensures
            busy == self@.busy,
    {
        self.task.is_busy()
    }

    /// Tells whether cancellation was requested.
    pub fn is_canceled(&self) -> (canceled: bool)
        ensures
            canceled == self@.canceled,
    {
        self.task.is_canceled()
    }

    /// Requests cancellation. Calling it again changes nothing.
    pub fn cancel(&mut self)
        ensures
            final(self)@ == old(self)@.cancel(),
            final(self).spec_id() == old(self).spec_id(),
    {
        self.task.cancel();
    }

    /// One turn of the worker's loop, up to the point where the handler is
    /// invoked: leave if cancelled, else take the head of the queue and
    /// become busy, or find the queue empty and stay idle.
    pub fn poll<T>(&mut self, receiver: &mut Queue<T>) -> (step: WorkerStep<T>)
        ensures
            step == poll_step(old(self)@, old(receiver)@),
            final(self)@ == poll_state(old(self)@, old(receiver)@),
            final(receiver)@ == poll_backlog(old(self)@, old(receiver)@),
            final(self).spec_id() == old(self).spec_id(),
    {
        match self.task.begin() {
            TaskStep::Exit => WorkerStep::Exit,
            TaskStep::Wait => WorkerStep::Sleep,
            TaskStep::Invoke => match receiver.pop() {
                Some(item) => WorkerStep::Run(item),
                None => {
                    self.task.end(HandlerOutcome::Returned);
                    WorkerStep::Sleep
                },
            },
        }
    }

    /// Records that the handler has ended. Whether it returned or panicked,
    /// the worker is idle again and its loop goes on.
    pub fn complete(&mut self, outcome: HandlerOutcome)
        ensures
            final(self)@ == old(self)@.end(),
            final(self).spec_id() == old(self).spec_id(),
    {
        self.task.end(outcome);
    }
}

} // verus!
