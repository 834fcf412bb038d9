use crate::task::{HandlerOutcome, TaskState, TaskStep};
use crate::worker::{poll_backlog, poll_state, poll_step, WorkerStep};
use vstd::multiset::Multiset;
use vstd::prelude::*;
use vstd::seq_lib::{to_multiset_build, to_multiset_len};

verus! {

/// A worker pool as a mathematical value: what is queued, what every worker
/// is doing, and the history of what went through the pool.
pub struct PoolState<T> {
    /// The items waiting for a worker, oldest first.
    pub backlog: Seq<T>,
    /// The flags of every worker.
    pub tasks: Seq<TaskState>,
    /// For every worker, the item whose handler invocation is under way.
    pub in_flight: Seq<Option<T>>,
    /// Every item pushed so far, in the order of the pushes.
    pub pushed: Seq<T>,
    /// Every item handed to the handler so far, in the order of the hand-overs.
    pub started: Seq<T>,
    /// Every item whose handler invocation has ended, in the order in which
    /// the invocations ended.
    pub completed: Seq<T>,
}

/// One thing that happens to a pool. Every event is a single step: the pool
/// is locked while it is applied.
pub enum PoolEvent<T> {
    /// A producer pushes an item.
    Push(T),
    /// The worker with this index comes round to the top of its loop.
    Poll(int),
    /// The handler invoked by the worker with this index has ended.
    Complete(int, HandlerOutcome),
    /// Cancellation is requested for the worker with this index.
    Cancel(int),
}

/// The items held by the workers of a pool, as a multiset.
pub open spec fn held<T>(slots: Seq<Option<T>>) -> Multiset<T>
    decreases slots.len(),
{
    if slots.len() == 0 {
        Multiset::empty()
    } else {
        held(slots.drop_last()).add(slot_items(slots.last()).to_multiset())
    }
}

/// The item in a slot, as a sequence of length zero or one.
pub open spec fn slot_items<T>(slot: Option<T>) -> Seq<T> {
    match slot {
        Some(item) => seq![item],
        None => Seq::empty(),
    }
}

/// The items of the pushes among `events`, in order.
pub open spec fn pushes<T>(events: Seq<PoolEvent<T>>) -> Seq<T>
    decreases events.len(),
{
    if events.len() == 0 {
        Seq::empty()
    } else {
        match events.last() {
            PoolEvent::Push(item) => pushes(events.drop_last()).push(item),
            _ => pushes(events.drop_last()),
        }
    }
}

impl<T> PoolState<T> {
    /// A fresh pool with `task_count` idle workers and nothing queued.
    pub open spec fn initial(task_count: nat) -> Self {
        PoolState {
            backlog: Seq::empty(),
            tasks: Seq::new(task_count, |i: int| TaskState::idle()),
            in_flight: Seq::new(task_count, |i: int| None),
            pushed: Seq::empty(),
            started: Seq::empty(),
            completed: Seq::empty(),
        }
    }

    /// Tells whether `worker` is the index of a worker of this pool.
    pub open spec fn has_worker(self, worker: int) -> bool {
        0 <= worker < self.tasks.len()
    }

    /// No item is waiting in the queue.
    pub open spec fn is_empty(self) -> bool {
        self.backlog.len() == 0
    }

    /// At least one worker is in the middle of a handler invocation.
    pub open spec fn is_busy(self) -> bool {
        exists|i: int| 0 <= i < self.tasks.len() && (#[trigger] self.tasks[i]).busy
    }

    /// Nothing is queued and no handler is running: the condition that ends
    /// a wait for the pool.
    pub open spec fn is_drained(self) -> bool {
        self.is_empty() && !self.is_busy()
    }

    /// Every worker has left its loop.
    pub open spec fn is_shut_down(self) -> bool {
        forall|i: int| 0 <= i < self.tasks.len() ==> (#[trigger] self.tasks[i]).finished
    }

    /// The pool after `item` was pushed.
    pub open spec fn push(self, item: T) -> Self {
        PoolState { backlog: self.backlog.push(item), pushed: self.pushed.push(item), ..self }
    }

    /// Tells whether `worker`, coming round to the top of its loop, takes
    /// the head of the queue.
    pub open spec fn takes(self, worker: int) -> bool {
        self.has_worker(worker) && self.tasks[worker].step() == TaskStep::Invoke
            && self.backlog.len() > 0
    }

    /// What `worker` does when it comes round to the top of its loop.
    pub open spec fn poll_step(self, worker: int) -> WorkerStep<T> {
        if self.has_worker(worker) {
            poll_step(self.tasks[worker], self.backlog)
        } else {
            WorkerStep::Exit
        }
    }

    /// The pool after `worker` has come round to the top of its loop.
    pub open spec fn poll(self, worker: int) -> Self {
        if !self.has_worker(worker) {
            self
        } else {
            PoolState {
                backlog: poll_backlog(self.tasks[worker], self.backlog),
                tasks: self.tasks.update(worker, poll_state(self.tasks[worker], self.backlog)),
                in_flight: if self.takes(worker) {
                    self.in_flight.update(worker, Some(self.backlog[0]))
                } else {
                    self.in_flight
                },
                started: if self.takes(worker) {
                    self.started.push(self.backlog[0])
                } else {
                    self.started
                },
                ..self
            }
        }
    }

    /// The pool after the handler invoked by `worker` has ended. How it
    /// ended makes no difference.
    pub open spec fn complete(self, worker: int) -> Self {
        if !self.has_worker(worker) {
            self
        } else {
            PoolState {
                tasks: self.tasks.update(worker, self.tasks[worker].end()),
                in_flight: self.in_flight.update(worker, None),
                completed: self.completed + slot_items(self.in_flight[worker]),
                ..self
            }
        }
    }

    /// The pool after cancellation was requested for `worker`.
    pub open spec fn cancel(self, worker: int) -> Self {
        if !self.has_worker(worker) {
            self
        } else {
            PoolState { tasks: self.tasks.update(worker, self.tasks[worker].cancel()), ..self }
        }
    }

    /// The pool after one event.
    pub open spec fn step(self, event: PoolEvent<T>) -> Self {
        match event {
            PoolEvent::Push(item) => self.push(item),
            PoolEvent::Poll(worker) => self.poll(worker),
            PoolEvent::Complete(worker, _) => self.complete(worker),
            PoolEvent::Cancel(worker) => self.cancel(worker),
        }
    }

    /// The pool after a sequence of events, in whatever way the producers
    /// and the workers happened to interleave.
    pub open spec fn run(self, events: Seq<PoolEvent<T>>) -> Self
        decreases events.len(),
    {
        if events.len() == 0 {
            self
        } else {
            self.run(events.drop_last()).step(events.last())
        }
    }

    /// What holds of a pool at every moment of its life.
    pub open spec fn inv(self) -> bool {
        &&& self.in_flight.len() == self.tasks.len()
        &&& forall|i: int|
            0 <= i < self.tasks.len() ==> (#[trigger] self.tasks[i]).wf() && (self.tasks[i].busy
                <==> self.in_flight[i].is_some())
        &&& self.pushed == self.started + self.backlog
        &&& self.started.to_multiset() == self.completed.to_multiset().add(held(self.in_flight))
        &&& self.tasks.len() == 1 ==> self.started == self.completed + slot_items(
            self.in_flight[0],
        )
    }
}

/// Filling an empty slot adds the item to what the workers hold.
proof fn lemma_held_fill<T>(slots: Seq<Option<T>>, i: int, item: T)
    requires
        0 <= i < slots.len(),
        slots[i].is_none(),
    ensures
        held(slots.update(i, Some(item))) == held(slots).insert(item),
    decreases slots.len(),
{
    let filled = slots.update(i, Some(item));
    if i == slots.len() - 1 {
        assert(filled.drop_last() =~= slots.drop_last());
        assert(slot_items(Some(item)).to_multiset() =~= Multiset::singleton(item)) by {
            seq![item].to_multiset_ensures();
            Seq::<T>::empty().to_multiset_ensures();
        }
        assert(slot_items(slots.last()).to_multiset() =~= Multiset::empty()) by {
            to_multiset_len(Seq::<T>::empty());
        }
    } else {
        lemma_held_fill(slots.drop_last(), i, item);
        assert(filled.drop_last() =~= slots.drop_last().update(i, Some(item)));
    }
}

/// Emptying a slot takes its item away from what the workers hold.
proof fn lemma_held_clear<T>(slots: Seq<Option<T>>, i: int)
    requires
        0 <= i < slots.len(),
    ensures
        held(slots) == held(slots.update(i, None)).add(slot_items(slots[i]).to_multiset()),
    decreases slots.len(),
{
    let cleared = slots.update(i, None);
    if i == slots.len() - 1 {
        assert(cleared.drop_last() =~= slots.drop_last());
        assert(slot_items(cleared.last()).to_multiset() =~= Multiset::empty()) by {
            to_multiset_len(Seq::<T>::empty());
        }
    } else {
        lemma_held_clear(slots.drop_last(), i);
        assert(cleared.drop_last() =~= slots.drop_last().update(i, None));
    }
}

/// Workers that hold nothing hold the empty multiset.
proof fn lemma_held_nothing<T>(slots: Seq<Option<T>>)
    requires
        forall|i: int| 0 <= i < slots.len() ==> (#[trigger] slots[i]).is_none(),
    ensures
        held(slots) == Multiset::<T>::empty(),
    decreases slots.len(),
{
    if slots.len() > 0 {
        lemma_held_nothing(slots.drop_last());
        assert(slot_items(slots.last()).to_multiset() =~= Multiset::empty()) by {
            to_multiset_len(Seq::<T>::empty());
        }
    }
}

/// A fresh pool satisfies the invariant.
pub proof fn lemma_initial_inv<T>(task_count: nat)
    ensures
        PoolState::<T>::initial(task_count).inv(),
{
    let s = PoolState::<T>::initial(task_count);
    lemma_held_nothing(s.in_flight);
    assert(s.started.to_multiset() =~= s.completed.to_multiset().add(held(s.in_flight)));
}

/// Every event keeps the invariant.
pub proof fn lemma_step_keeps_inv<T>(s: PoolState<T>, event: PoolEvent<T>)
    requires
        s.inv(),
    ensures
        s.step(event).inv(),
{
    let next = s.step(event);
    match event {
        PoolEvent::Poll(worker) => {
            if s.takes(worker) {
                let item = s.backlog[0];
                assert(next.pushed =~= next.started + next.backlog);
                lemma_held_fill(s.in_flight, worker, item);
                to_multiset_build(s.started, item);
                assert(next.started.to_multiset() =~= next.completed.to_multiset().add(
                    held(next.in_flight),
                ));
            }
        },
        PoolEvent::Complete(worker, _) => {
            if s.has_worker(worker) {
                let done = slot_items(s.in_flight[worker]);
                lemma_held_clear(s.in_flight, worker);
                vstd::seq_lib::lemma_multiset_commutative(s.completed, done);
                assert(next.started.to_multiset() =~= next.completed.to_multiset().add(
                    held(next.in_flight),
                ));
            }
        },
        _ => {},
    }
}

/// Whatever happens to a pool, the invariant holds afterwards.
pub proof fn lemma_run_keeps_inv<T>(s: PoolState<T>, events: Seq<PoolEvent<T>>)
    requires
        s.inv(),
    ensures
        s.run(events).inv(),
    decreases events.len(),
{
    if events.len() > 0 {
        lemma_run_keeps_inv(s, events.drop_last());
        lemma_step_keeps_inv(s.run(events.drop_last()), events.last());
    }
}

/// The history of pushes of a pool is the pushes among its events, after
/// what had been pushed before.
pub proof fn lemma_run_records_pushes<T>(s: PoolState<T>, events: Seq<PoolEvent<T>>)
    ensures
        s.run(events).pushed == s.pushed + pushes(events),
        s.run(events).tasks.len() == s.tasks.len(),
    decreases events.len(),
{
    if events.len() > 0 {
        lemma_run_records_pushes(s, events.drop_last());
    }
}

/// With a single worker the handler receives the items one after the other,
/// in exactly the order in which they were pushed: what has been handled,
/// what is being handled and what is still queued make up the pushes, in
/// that order. Once the pool is drained, everything has been handled.
pub proof fn lemma_single_worker_keeps_push_order<T>(events: Seq<PoolEvent<T>>)
    ensures
        ({
            let s = PoolState::<T>::initial(1).run(events);
            &&& s.completed + slot_items(s.in_flight[0]) + s.backlog == pushes(events)
            &&& s.started.is_prefix_of(pushes(events))
            &&& s.completed.is_prefix_of(s.started)
            &&& s.is_drained() ==> s.completed == pushes(events)
        }),
{
    let s = PoolState::<T>::initial(1).run(events);
    lemma_initial_inv::<T>(1);
    lemma_run_keeps_inv(PoolState::<T>::initial(1), events);
    lemma_run_records_pushes(PoolState::<T>::initial(1), events);
    if s.is_drained() {
        assert(!s.tasks[0].busy);
    }
}

/// No item is lost and none is handled twice, whatever the number of
/// workers and however pushes and workers interleave: the items handed to
/// the handler so far, followed by those still queued, are the pushes; and
/// every item handed over is either done or held by a worker. Once the pool
/// is drained, the handler has run to its end exactly once for every push.
pub proof fn lemma_conservation<T>(task_count: nat, events: Seq<PoolEvent<T>>)
    ensures
        ({
            let s = PoolState::<T>::initial(task_count).run(events);
            &&& s.started + s.backlog == pushes(events)
            &&& s.started.to_multiset() == s.completed.to_multiset().add(held(s.in_flight))
            &&& s.is_drained() ==> {
                &&& s.started == pushes(events)
                &&& s.completed.to_multiset() == pushes(events).to_multiset()
                &&& s.completed.len() == pushes(events).len()
            }
        }),
{
    let s = PoolState::<T>::initial(task_count).run(events);
    lemma_initial_inv::<T>(task_count);
    lemma_run_keeps_inv(PoolState::<T>::initial(task_count), events);
    lemma_run_records_pushes(PoolState::<T>::initial(task_count), events);
    if s.is_drained() {
        lemma_idle_pool_holds_nothing(s);
        to_multiset_len(s.completed);
        to_multiset_len(pushes(events));
    }
}

/// The pool is busy exactly while some worker holds an item; a pool that is
/// not busy holds nothing.
pub proof fn lemma_idle_pool_holds_nothing<T>(s: PoolState<T>)
    requires
        s.inv(),
    ensures
        s.is_busy() <==> exists|i: int| 0 <= i < s.in_flight.len() && (#[trigger] s.in_flight[i]).is_some(),
        !s.is_busy() ==> held(s.in_flight) == Multiset::<T>::empty(),
{
    if exists|i: int| 0 <= i < s.in_flight.len() && (#[trigger] s.in_flight[i]).is_some() {
        let i = choose|i: int| 0 <= i < s.in_flight.len() && (#[trigger] s.in_flight[i]).is_some();
        assert(s.tasks[i].busy);
    }
    if !s.is_busy() {
        lemma_held_nothing(s.in_flight);
    }
}

/// After a push, the next turn of any worker that is idle and not cancelled
/// makes the pool busy; if nothing was queued before, that worker now holds
/// the pushed item. A drained pool is not busy.
pub proof fn lemma_busy_reflects_work<T>(s: PoolState<T>, worker: int, item: T)
    requires
        s.inv(),
        s.has_worker(worker),
        s.tasks[worker].step() == TaskStep::Invoke,
    ensures
        s.push(item).poll(worker).is_busy(),
        s.is_empty() ==> s.push(item).poll_step(worker) == WorkerStep::Run(item),
        s.is_empty() ==> s.push(item).poll(worker).in_flight[worker] == Some(item),
        s.is_drained() ==> !s.is_busy(),
{
    let after = s.push(item).poll(worker);
    assert(after.tasks[worker].busy);
}

/// A handler that panics does no more to the pool than one that returns:
/// the number of workers stays, no worker leaves its loop, the queue is
/// untouched, and the same worker takes the next item at its next turn.
pub proof fn lemma_panic_is_isolated<T>(s: PoolState<T>, worker: int)
    requires
        s.inv(),
        s.has_worker(worker),
        s.tasks[worker].busy,
    ensures
        ({
            let after = s.step(PoolEvent::Complete(worker, HandlerOutcome::Panicked));
            &&& after == s.step(PoolEvent::Complete(worker, HandlerOutcome::Returned))
            &&& after.inv()
            &&& after.tasks.len() == s.tasks.len()
            &&& forall|i: int|
                0 <= i < s.tasks.len() ==> (#[trigger] after.tasks[i]).finished
                    == s.tasks[i].finished
            &&& !after.tasks[worker].finished
            &&& !after.tasks[worker].busy
            &&& after.backlog == s.backlog
            &&& !s.tasks[worker].canceled && s.backlog.len() > 0 ==> after.poll_step(worker)
                == WorkerStep::Run(s.backlog[0])
        }),
{
    lemma_step_keeps_inv(s, PoolEvent::Complete(worker, HandlerOutcome::Panicked));
}

/// Teardown waits for a running handler: a worker that is cancelled in the
/// middle of an invocation does not leave its loop while the handler runs,
/// and leaves it at its first turn after the handler has ended.
pub proof fn lemma_teardown_waits_for_handler<T>(s: PoolState<T>, worker: int)
    requires
        s.inv(),
        s.has_worker(worker),
        s.tasks[worker].busy,
    ensures
        ({
            let cancelled = s.cancel(worker);
            &&& !cancelled.tasks[worker].finished
            &&& cancelled.poll_step(worker) == WorkerStep::<T>::Sleep
            &&& cancelled.poll(worker) == cancelled
            &&& cancelled.complete(worker).poll_step(worker) == WorkerStep::<T>::Exit
            &&& cancelled.complete(worker).poll(worker).tasks[worker].finished
        }),
{
    let cancelled = s.cancel(worker);
    assert(cancelled.poll(worker).tasks =~= cancelled.tasks);
}

/// A worker that has left its loop stays out, and a pool whose workers have
/// all left is idle: when teardown is over, no handler is running.
pub proof fn lemma_shut_down_is_final<T>(s: PoolState<T>, event: PoolEvent<T>)
    requires
        s.inv(),
        s.is_shut_down(),
    ensures
        !s.is_busy(),
        held(s.in_flight) == Multiset::<T>::empty(),
        s.step(event).is_shut_down(),
{
    lemma_idle_pool_holds_nothing(s);
}

/// A pool without workers takes nothing: every pushed item stays queued, so
/// once an item was pushed the pool never drains.
pub proof fn lemma_pool_without_workers_takes_nothing<T>(events: Seq<PoolEvent<T>>)
    ensures
        ({
            let s = PoolState::<T>::initial(0).run(events);
            &&& s.backlog == pushes(events)
            &&& s.started.len() == 0
            &&& pushes(events).len() > 0 ==> !s.is_drained()
        }),
    decreases events.len(),
{
    if events.len() > 0 {
        lemma_pool_without_workers_takes_nothing(events.drop_last());
        lemma_run_records_pushes(PoolState::<T>::initial(0), events.drop_last());
    }
}

} // verus!
