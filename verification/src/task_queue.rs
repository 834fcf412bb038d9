use crate::linear_data::LinearData;
use crate::pool_state::{lemma_initial_inv, lemma_step_keeps_inv, PoolEvent, PoolState};
use crate::queue::Queue;
use crate::task::HandlerOutcome;
use crate::worker::{Worker, WorkerStep};
use vstd::prelude::*;

verus! {

/// A fixed set of workers that take their work from one shared backlog.
///
/// The value holds everything the workers and the producers share: the
/// backlog and the flags of every worker. Each method is one indivisible
/// step; the threads that drive the pool keep it behind one lock and run
/// the handler outside of it:
///
/// - a producer calls [`TaskQueue::push`];
/// - worker `i` calls [`TaskQueue::poll`] at the top of every turn of its
///   loop, runs the handler on [`WorkerStep::Run`], reports back with
///   [`TaskQueue::complete`], and sleeps between turns;
/// - whoever waits for the pool sleeps until [`TaskQueue::is_drained`];
/// - teardown calls [`TaskQueue::cancel`] and joins the worker.
///
/// The view is a [`PoolState`], which also keeps the history of what went
/// through the pool.
pub struct TaskQueue<T> {
    tasks: Vec<Worker>,
    backlog: Queue<T>,
    in_flight: Ghost<Seq<Option<T>>>,
    pushed: Ghost<Seq<T>>,
    started: Ghost<Seq<T>>,
    completed: Ghost<Seq<T>>,
}

impl<T> View for TaskQueue<T> {
    type V = PoolState<T>;

    closed spec fn view(&self) -> PoolState<T> {
        PoolState {
            backlog: self.backlog@,
            tasks: Seq::new(self.tasks@.len(), |i: int| self.tasks@[i]@),
            in_flight: self.in_flight@,
            pushed: self.pushed@,
            started: self.started@,
            completed: self.completed@,
        }
    }
}

impl<T> TaskQueue<T> {
    /// Creates a pool of `task_count` idle workers with an empty backlog.
    /// With no worker at all, items can be pushed but none is ever taken.
    pub fn new(task_count: usize) -> (pool: Self)
        ensures
            pool@ == PoolState::<T>::initial(task_count as nat),
            pool@.inv(),
    {
        let mut tasks: Vec<Worker> = Vec::new();
        let mut id: usize = 0;
        while id < task_count
            invariant
                id <= task_count,
                tasks@.len() == id,
                forall|i: int| 0 <= i < id ==> (#[trigger] tasks@[i])@ == crate::task::TaskState::idle(),
            decreases task_count - id,
        {
            tasks.push(Worker::new(id));
            id += 1;
        }
        let pool = TaskQueue {
            tasks,
            backlog: Queue::new(),
            in_flight: Ghost(Seq::new(task_count as nat, |i: int| None)),
            pushed: Ghost(Seq::empty()),
            started: Ghost(Seq::empty()),
            completed: Ghost(Seq::empty()),
        };
        assert(pool@.tasks =~= PoolState::<T>::initial(task_count as nat).tasks);
        proof {
            lemma_initial_inv::<T>(task_count as nat);
        }
        pool
    }

    /// The number of workers.
    pub fn task_count(&self) -> (count: usize)
        ensures
            count == self@.tasks.len(),
    {
        self.tasks.len()
    }

    /// Appends `item` to the backlog.
    pub fn push(&mut self, item: T)
        ensures
            final(self)@ == old(self)@.push(item),
            old(self)@.inv() ==> final(self)@.inv(),
    {
        proof {
            if self@.inv() {
                lemma_step_keeps_inv(self@, PoolEvent::Push(item));
            }
        }
        self.pushed = Ghost(self.pushed@.push(item));
        self.backlog.push(item);
    }

    /// Tells whether the backlog is empty. Items that workers are handling
    /// do not count.
    pub fn is_empty(&self) -> (empty: bool)
        ensures
            empty == self@.is_empty(),
    {
        self.backlog.is_empty()
    }

    /// Tells whether any worker is in the middle of a handler invocation.
    pub fn is_busy(&self) -> (busy: bool)
        ensures
            busy == self@.is_busy(),
    {
        let mut i: usize = 0;
        while i < self.tasks.len()
            invariant
                i <= self.tasks@.len(),
                forall|j: int| 0 <= j < i ==> !(#[trigger] self@.tasks[j]).busy,
            decreases self.tasks@.len() - i,
        {
            if self.tasks[i].is_busy() {
                assert(self@.tasks[i as int].busy);
                return true;
            }
            i += 1;
        }
        false
    }

    /// Tells whether the backlog is empty and no worker is busy: the
    /// condition on which a wait for the pool ends.
    pub fn is_drained(&self) -> (drained: bool)
        ensures
            drained == self@.is_drained(),
    {
        self.is_empty() && !self.is_busy()
    }

    /// Tells whether `worker` has left its loop. A worker that does not
    /// exist counts as having left.
    pub fn is_finished(&self, worker: usize) -> (finished: bool)
        ensures
            finished == (self@.has_worker(worker as int) ==> self@.tasks[worker as int].finished),
    {
        if worker < self.tasks.len() {
            self.tasks[worker].is_finished()
        } else {
            true
        }
    }

    /// Tells whether every worker has left its loop.
    pub fn is_shut_down(&self) -> (done: bool)
        ensures
            done == self@.is_shut_down(),
    {
        let mut i: usize = 0;
        while i < self.tasks.len()
            invariant
                i <= self.tasks@.len(),
                forall|j: int| 0 <= j < i ==> (#[trigger] self@.tasks[j]).finished,
            decreases self.tasks@.len() - i,
        {
            if !self.tasks[i].is_finished() {
                assert(!self@.tasks[i as int].finished);
                return false;
            }
            i += 1;
        }
        true
    }

    /// One turn of the loop of `worker`, up to the point where the handler
    /// is invoked. The worker leaves if it was cancelled; else it takes the
    /// head of the backlog and becomes busy, or finds the backlog empty and
    /// stays idle. A worker that does not exist has nothing to run.
    pub fn poll(&mut self, worker: usize) -> (step: WorkerStep<T>)
        ensures
            step == old(self)@.poll_step(worker as int),
            final(self)@ == old(self)@.poll(worker as int),
            old(self)@.inv() ==> final(self)@.inv(),
    {
        proof {
            if self@.inv() {
                lemma_step_keeps_inv(self@, PoolEvent::Poll(worker as int));
            }
        }
        if worker >= self.tasks.len() {
            return WorkerStep::Exit;
        }
        let ghost before = self@;
        let step = self.tasks[worker].poll(&mut self.backlog);
        self.in_flight = Ghost(before.poll(worker as int).in_flight);
        self.started = Ghost(before.poll(worker as int).started);
        assert(self@.tasks =~= before.poll(worker as int).tasks);
        step
    }

    /// Records that the handler invoked by `worker` has ended. Whether it
    /// returned or panicked, the worker is idle again and goes on with its
    /// loop; the item is not handed out again.
    pub fn complete(&mut self, worker: usize, outcome: HandlerOutcome)
        ensures
            final(self)@ == old(self)@.complete(worker as int),
            old(self)@.inv() ==> final(self)@.inv(),
    {
        proof {
            if self@.inv() {
                lemma_step_keeps_inv(self@, PoolEvent::Complete(worker as int, outcome));
            }
        }
        if worker < self.tasks.len() {
            let ghost before = self@;
            self.tasks[worker].complete(outcome);
            self.in_flight = Ghost(before.complete(worker as int).in_flight);
            self.completed = Ghost(before.complete(worker as int).completed);
            assert(self@.tasks =~= before.complete(worker as int).tasks);
        }
    }

    /// Requests cancellation of `worker`. The worker notices at the top of
    /// its next turn; a handler that is running is not interrupted.
    pub fn cancel(&mut self, worker: usize)
        ensures
            final(self)@ == old(self)@.cancel(worker as int),
            old(self)@.inv() ==> final(self)@.inv(),
    {
        proof {
            if self@.inv() {
                lemma_step_keeps_inv(self@, PoolEvent::Cancel(worker as int));
            }
        }
        if worker < self.tasks.len() {
            let ghost before = self@;
            self.tasks[worker].cancel();
            assert(self@.tasks =~= before.cancel(worker as int).tasks);
        }
    }
}

} // verus!
