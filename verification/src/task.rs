use vstd::prelude::*;

verus! {

/// How one invocation of a handler ended.
///
/// A panic inside a handler is caught where the handler is invoked and
/// reported as a value, so that the loop around it can go on.
#[derive(Clone, Copy, Debug, PartialEq, Eq, Structural)]
pub enum HandlerOutcome {
    /// The handler returned.
    Returned,
    /// The handler panicked; the item it was given is lost.
    Panicked,
}

/// What the loop of a background context does next.
#[derive(Clone, Copy, Debug, PartialEq, Eq, Structural)]
pub enum TaskStep {
    /// Leave the loop: the context was cancelled.
    Exit,
    /// Invoke the handler, then report how it ended with [`Task::end`].
    Invoke,
    /// Do nothing now: an invocation is still under way.
    Wait,
}

/// The flags of one background context, as a mathematical value.
pub struct TaskState {
    /// Cancellation was requested.
    pub canceled: bool,
    /// A handler invocation is under way.
    pub busy: bool,
    /// The loop has been left for good.
    pub finished: bool,
}

impl TaskState {
    /// The state of a context that has just been created.
    pub open spec fn idle() -> TaskState {
        TaskState { canceled: false, busy: false, finished: false }
    }

    /// A context only finishes after cancellation, and never in the middle
    /// of a handler invocation.
    pub open spec fn wf(self) -> bool {
        self.finished ==> self.canceled && !self.busy
    }

    /// The state after cancellation was requested.
    pub open spec fn cancel(self) -> TaskState {
        TaskState { canceled: true, ..self }
    }

    /// What the loop does when it comes round to its top in this state.
    pub open spec fn step(self) -> TaskStep {
        if self.finished {
            TaskStep::Exit
        } else if self.busy {
            TaskStep::Wait
        } else if self.canceled {
            TaskStep::Exit
        } else {
            TaskStep::Invoke
        }
    }

    /// The state after the loop has come round to its top.
    pub open spec fn begin(self) -> TaskState {
        match self.step() {
            TaskStep::Wait => self,
            TaskStep::Exit => TaskState { finished: true, ..self },
            TaskStep::Invoke => TaskState { busy: true, ..self },
        }
    }

    /// The state after a handler invocation has ended, however it ended.
    pub open spec fn end(self) -> TaskState {
        TaskState { busy: false, ..self }
    }
}

/// One background context that runs a handler again and again until it is
/// cancelled.
///
/// The value holds the flags that the context shares with its owner and
/// decides each turn of the loop; invoking the handler and sleeping between
/// turns is left to whoever drives it:
///
/// 1. call [`Task::begin`] at the top of every turn;
/// 2. on [`TaskStep::Invoke`] run the handler and pass how it ended to
///    [`Task::end`];
/// 3. on [`TaskStep::Exit`] leave the loop, otherwise sleep and start over.
#[derive(Debug)]
pub struct Task {
    is_canceled: bool,
    is_processing: bool,
    finished: bool,
}

impl View for Task {
    type V = TaskState;

    closed spec fn view(&self) -> TaskState {
        TaskState {
            canceled: self.is_canceled,
            busy: self.is_processing,
            finished: self.finished,
        }
    }
}

impl Task {
    /// Creates a context that is idle and not cancelled.
    pub fn new() -> (task: Self)
        ensures
            task@ == TaskState::idle(),
    {
        Task { is_canceled: false, is_processing: false, finished: false }
    }

    /// Tells whether the loop has been left.
    pub fn is_finished(&self) -> (finished: bool)
        ensures
            finished == self@.finished,
    {
        self.finished
    }

    /// Tells whether a handler invocation is under way.
    pub fn is_busy(&self) -> (busy: bool)
        ensures
            busy == self@.busy,
    {
        self.is_processing
    }

    /// Tells whether cancellation was requested.
    pub fn is_canceled(&self) -> (canceled: bool)
        ensures
            canceled == self@.canceled,
    {
        self.is_canceled
    }

    /// Requests cancellation. The loop notices at the top of its next turn.
    pub fn cancel(&mut self)
        ensures
            final(self)@ == old(self)@.cancel(),
    {
        self.is_canceled = true;
    }

    /// Decides the turn that starts now: leave the loop if cancellation was
    /// requested, else raise the busy flag and invoke the handler.
    pub fn begin(&mut self) -> (step: TaskStep)
        ensures
            step == old(self)@.step(),
            final(self)@ == old(self)@.begin(),
    {
        if self.finished {
            TaskStep::Exit
        } else if self.is_processing {
            TaskStep::Wait
        } else if self.is_canceled {
            self.finished = true;
            TaskStep::Exit
        } else {
            self.is_processing = true;
            TaskStep::Invoke
        }
    }

    /// Records that the handler invocation has ended. A panic is treated
    /// like a return: the busy flag drops and the loop goes on.
    pub fn end(&mut self, outcome: HandlerOutcome)
        ensures
            final(self)@ == old(self)@.end(),
    {
        self.is_processing = false;
    }
}

impl Default for Task {
    fn default() -> (task: Self)
        ensures
            task@ == TaskState::idle(),
    {
        Task::new()
    }
}

/// Every turn of the loop keeps a well-formed state well-formed.
pub proof fn lemma_task_steps_keep_wf(state: TaskState)
    requires
        state.wf(),
    ensures
        TaskState::idle().wf(),
        state.cancel().wf(),
        state.begin().wf(),
        state.end().wf(),
{
}

/// Requesting cancellation twice is the same as requesting it once.
pub proof fn lemma_cancel_is_idempotent(state: TaskState)
    ensures
        state.cancel().cancel() == state.cancel(),
{
}

/// Once cancellation was requested, an idle context leaves the loop at its
/// next turn and never invokes the handler again.
pub proof fn lemma_cancelled_task_exits(state: TaskState)
    requires
        state.canceled,
        !state.busy,
    ensures
        state.step() == TaskStep::Exit,
        state.begin().finished,
        state.begin().begin() == state.begin(),
{
}

} // verus!
