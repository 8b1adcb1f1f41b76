//! The task scheduler: a FIFO ready queue over slots of suspended futures.
//!
//! The scheduler never polls a future itself. `Executor::run` hands out the
//! next task whose future is present, the caller polls it once, and gives
//! it back with `Executor::suspend` if it is not finished. A finished task
//! is simply dropped. Wakeups re-enter the queue through `Executor::wake`.

use crate::error::SysError;
use crate::reactor::dispatch_at;
use crate::reactor::Dispatch;
use crate::reactor::RawFd;
use crate::reactor::Registration;
use std::collections::HashMap;
use std::collections::VecDeque;
use vstd::prelude::*;

verus! {

broadcast use vstd::std_specs::hash::group_hash_axioms;

/// The number of queued tasks at which `new_executor_and_spawner` makes
/// `Spawner::spawn` refuse further tasks.
pub const DEFAULT_CAPACITY: usize = 10000;

/// A task taken out of the scheduler for one poll: its identity and the
/// future that was in its slot.
#[derive(Debug, PartialEq, Eq)]
pub struct Task<F> {
    pub id: u64,
    pub future: F,
}

/// What one poll of a task's future gave.
#[derive(Debug, PartialEq, Eq)]
pub enum PollOutcome<F> {
    /// Not finished: the future, to be parked until the next wakeup.
    Pending(F),
    /// Finished, with success or with the failure that ended it.
    Ready(Result<(), SysError>),
}

/// Why a task was not admitted. The future comes back to the caller.
#[derive(Debug, PartialEq, Eq)]
pub enum SpawnError<F> {
    /// The ready queue already holds as many entries as its capacity.
    QueueFull(F),
    /// Every task identity has been handed out.
    IdsExhausted(F),
}

/// Why a task could not be parked. The task comes back to the caller.
#[derive(Debug, PartialEq, Eq)]
pub enum SuspendError<F> {
    /// The scheduler never handed out a task of this identity.
    UnknownTask(Task<F>),
    /// The slot of this identity is not empty.
    SlotOccupied(Task<F>),
}

/// The scheduler as a mathematical value.
pub struct ExecutorState<F> {
    /// Task identities waiting to be polled, the next one first.
    pub queue: Seq<u64>,
    /// The suspended future of each task that has one.
    pub slots: Map<u64, F>,
    /// The identity that the next admitted task gets.
    pub next_id: nat,
}

/// The number of entries at the head of `queue` whose task has no future in
/// its slot. Polling skips them: each costs one dequeue and nothing else.
pub open spec fn stale_prefix<F>(queue: Seq<u64>, slots: Map<u64, F>) -> nat
    decreases queue.len(),
{
    if queue.len() == 0 || slots.contains_key(queue[0]) {
        0
    } else {
        1 + stale_prefix(queue.skip(1), slots)
    }
}

impl<F> ExecutorState<F> {
    /// The scheduler before any task was admitted.
    pub open spec fn empty() -> Self {
        ExecutorState { queue: Seq::empty(), slots: Map::empty(), next_id: 0 }
    }

    /// Every identity in use is one that was handed out.
    pub open spec fn wf(self) -> bool {
        &&& self.next_id <= u64::MAX
        &&& forall|i: int| 0 <= i < self.queue.len() ==> (#[trigger] self.queue[i]) < self.next_id
        &&& forall|id: u64| #[trigger] self.slots.contains_key(id) ==> id < self.next_id
    }

    /// Whether a sender that stops at `capacity` queued entries gets a new
    /// task in.
    pub open spec fn admits(self, capacity: nat) -> bool {
        self.queue.len() < capacity && self.next_id < u64::MAX
    }

    /// The state after a new task with `future` was admitted.
    pub open spec fn spawned(self, future: F) -> Self {
        ExecutorState {
            queue: self.queue.push(self.next_id as u64),
            slots: self.slots.insert(self.next_id as u64, future),
            next_id: self.next_id + 1,
        }
    }

    /// Whether `id` was ever handed out.
    pub open spec fn knows(self, id: u64) -> bool {
        id < self.next_id
    }

    /// The state after a wakeup of task `id`.
    pub open spec fn woken(self, id: u64) -> Self {
        if self.knows(id) {
            ExecutorState { queue: self.queue.push(id), ..self }
        } else {
            self
        }
    }

    /// The task that the next `run` hands out, if any.
    pub open spec fn next_task(self) -> Option<Task<F>> {
        let k = stale_prefix(self.queue, self.slots) as int;
        if k < self.queue.len() {
            Some(Task { id: self.queue[k], future: self.slots[self.queue[k]] })
        } else {
            None
        }
    }

    /// The state after one `run`.
    pub open spec fn after_run(self) -> Self {
        let k = stale_prefix(self.queue, self.slots) as int;
        if k < self.queue.len() {
            ExecutorState {
                queue: self.queue.skip(k + 1),
                slots: self.slots.remove(self.queue[k]),
                ..self
            }
        } else {
            ExecutorState { queue: Seq::empty(), ..self }
        }
    }

    /// Whether `task` can be parked: it was handed out and its slot is free.
    pub open spec fn can_park(self, task: Task<F>) -> bool {
        self.knows(task.id) && !self.slots.contains_key(task.id)
    }

    /// The state after `task` was parked.
    pub open spec fn parked(self, task: Task<F>) -> Self {
        ExecutorState { slots: self.slots.insert(task.id, task.future), ..self }
    }
}

/// The receiving end of the ready queue, with the slots of all tasks.
pub struct Executor<F> {
    ready_queue: VecDeque<u64>,
    slots: HashMap<u64, F>,
    next_id: u64,
}

/// The sending end of the ready queue: a handle that admits new tasks as
/// long as the queue holds fewer entries than the handle's capacity. Every
/// copy admits by the same rule.
#[derive(Clone, Copy, Debug)]
pub struct Spawner {
    capacity: usize,
}

impl<F> View for Executor<F> {
    type V = ExecutorState<F>;

    closed spec fn view(&self) -> ExecutorState<F> {
        ExecutorState {
            queue: self.ready_queue@,
            slots: self.slots@,
            next_id: self.next_id as nat,
        }
    }
}

impl<F> Executor<F> {
    /// A scheduler with no task.
    pub fn new() -> (executor: Executor<F>)
        ensures
            executor@.wf(),
            executor@ == ExecutorState::<F>::empty(),
    {
        Executor { ready_queue: VecDeque::new(), slots: HashMap::new(), next_id: 0 }
    }

    /// The number of entries in the ready queue.
    pub fn queue_len(&self) -> (n: usize)
        ensures
            n == self@.queue.len(),
    {
        self.ready_queue.len()
    }

    /// Whether task `id` has a future in its slot.
    pub fn is_suspended(&self, id: u64) -> (b: bool)
        ensures
            b == self@.slots.contains_key(id),
    {
        self.slots.contains_key(&id)
    }

    /// A wakeup of task `id`: puts the task at the back of the queue, once
    /// more if it is queued already. It never waits and never fails, also
    /// beyond the capacity, so a wakeup cannot be lost or block its sender.
    /// An identity that was never handed out is ignored.
    pub fn wake(&mut self, id: u64) -> (known: bool)
        requires
            old(self)@.wf(),
        ensures
            final(self)@.wf(),
            known == old(self)@.knows(id),
            final(self)@ == old(self)@.woken(id),
    {
        if id < self.next_id {
            self.ready_queue.push_back(id);
            proof {
                assert(self@.queue == old(self)@.queue.push(id));
                assert(self@.slots == old(self)@.slots);
            }
            true
        } else {
            false
        }
    }

    /// Takes the next task to poll: the first queued task whose slot holds
    /// a future, with that future taken out of the slot. Entries in front
    /// of it, whose slots are empty, are dropped from the queue. `None`
    /// when no queued task has a future; the queue is then empty.
    pub fn run(&mut self) -> (task: Option<Task<F>>)
        requires
            old(self)@.wf(),
        ensures
            final(self)@.wf(),
            task == old(self)@.next_task(),
            final(self)@ == old(self)@.after_run(),
    {
        let ghost start = self@;
        let ghost mut skipped: int = 0;
        while self.ready_queue.len() > 0
            invariant
                start == old(self)@,
                self@.wf(),
                0 <= skipped <= start.queue.len(),
                self@.queue == start.queue.skip(skipped),
                self@.slots == start.slots,
                self@.next_id == start.next_id,
                stale_prefix(start.queue, start.slots) == skipped + stale_prefix(
                    self@.queue,
                    self@.slots,
                ),
            decreases self.ready_queue.len(),
        {
            let ghost before = self@;
            let front = self.ready_queue.pop_front();
            let id: u64 = front.unwrap();
            proof {
                assert(self@.queue == before.queue.skip(1));
                assert(before.queue.skip(1) == start.queue.skip(skipped + 1));
                assert(id == start.queue[skipped]);
            }
            match self.slots.remove(&id) {
                Some(future) => {
                    proof {
                        assert(start.slots.contains_key(id));
                        assert(stale_prefix(before.queue, before.slots) == 0);
                        assert(stale_prefix(start.queue, start.slots) == skipped);
                        assert(self@.slots == start.slots.remove(id));
                        assert(self@.queue == start.queue.skip(skipped + 1));
                        assert(self@ == start.after_run());
                        assert(future == start.slots[id]);
                    }
                    return Some(Task { id, future });
                },
                None => {
                    proof {
                        assert(!start.slots.contains_key(id));
                        assert(self@.slots == start.slots);
                        assert(stale_prefix(before.queue, before.slots) == 1 + stale_prefix(
                            before.queue.skip(1),
                            before.slots,
                        ));
                        skipped = skipped + 1;
                    }
                },
            }
        }
        proof {
            assert(self@.queue == Seq::<u64>::empty());
            assert(stale_prefix(start.queue, start.slots) == start.queue.len());
            assert(self@ == start.after_run());
        }
        None
    }

    /// Parks a task whose poll was not finished: its future goes back into
    /// its slot, to be taken by the `run` that follows its next wakeup.
    /// The queue is untouched. A task that this scheduler never handed out,
    /// or whose slot is taken, comes back.
    pub fn suspend(&mut self, task: Task<F>) -> (r: Result<(), SuspendError<F>>)
        requires
            old(self)@.wf(),
        ensures
            final(self)@.wf(),
            match r {
                Ok(()) => old(self)@.can_park(task) && final(self)@ == old(self)@.parked(task),
                Err(SuspendError::UnknownTask(t)) => {
                    &&& !old(self)@.knows(task.id)
                    &&& t == task
                    &&& final(self)@ == old(self)@
                },
                Err(SuspendError::SlotOccupied(t)) => {
                    &&& old(self)@.knows(task.id)
                    &&& old(self)@.slots.contains_key(task.id)
                    &&& t == task
                    &&& final(self)@ == old(self)@
                },
            },
    {
        if task.id >= self.next_id {
            return Err(SuspendError::UnknownTask(task));
        }
        if self.slots.contains_key(&task.id) {
            return Err(SuspendError::SlotOccupied(task));
        }
        self.slots.insert(task.id, task.future);
        proof {
            assert(self@.slots == old(self)@.slots.insert(task.id, task.future));
            assert(self@.queue == old(self)@.queue);
        }
        Ok(())
    }

    /// Takes the outcome of the one poll of task `id`. A pending future is
    /// parked as by `suspend`. A finished task is dropped: nothing of it
    /// is kept and it is not queued again. Its failure, if it ended in
    /// one, is returned for the log and goes no further.
    pub fn settle(&mut self, id: u64, outcome: PollOutcome<F>) -> (r: Result<
        Option<SysError>,
        SuspendError<F>,
    >)
        requires
            old(self)@.wf(),
        ensures
            final(self)@.wf(),
            match outcome {
                PollOutcome::Pending(future) => {
                    let task = Task { id, future };
                    if old(self)@.can_park(task) {
                        r == Ok::<Option<SysError>, SuspendError<F>>(None) && final(self)@ == old(
                            self,
                        )@.parked(task)
                    } else if old(self)@.knows(id) {
                        r == Err::<Option<SysError>, SuspendError<F>>(
                            SuspendError::SlotOccupied(task),
                        ) && final(self)@ == old(self)@
                    } else {
                        r == Err::<Option<SysError>, SuspendError<F>>(
                            SuspendError::UnknownTask(task),
                        ) && final(self)@ == old(self)@
                    }
                },
                PollOutcome::Ready(Ok(())) => {
                    r == Ok::<Option<SysError>, SuspendError<F>>(None) && final(self)@ == old(
                        self,
                    )@
                },
                PollOutcome::Ready(Err(e)) => {
                    r == Ok::<Option<SysError>, SuspendError<F>>(Some(e)) && final(self)@ == old(
                        self,
                    )@
                },
            },
    {
        match outcome {
            PollOutcome::Pending(future) => match self.suspend(Task { id, future }) {
                Ok(()) => Ok(None),
                Err(e) => Err(e),
            },
            PollOutcome::Ready(Ok(())) => Ok(None),
            PollOutcome::Ready(Err(e)) => Ok(Some(e)),
        }
    }
}

impl Spawner {
    /// A sender that admits while the queue holds fewer than `capacity`
    /// entries.
    pub fn new(capacity: usize) -> (spawner: Spawner)
        ensures
            spawner.capacity() == capacity,
    {
        Spawner { capacity }
    }

    /// The queue length at which this sender stops admitting.
    pub closed spec fn capacity(&self) -> usize {
        self.capacity
    }

    /// The queue length at which this sender stops admitting.
    pub fn limit(&self) -> (n: usize)
        ensures
            n == self.capacity(),
    {
        self.capacity
    }

    /// Admits a task for `future`, or hands the future back. The task gets
    /// the next identity and goes to the back of the queue. A full queue
    /// refuses at once: admission never waits.
    pub fn spawn<F>(&self, executor: &mut Executor<F>, future: F) -> (r: Result<
        u64,
        SpawnError<F>,
    >)
        requires
            old(executor)@.wf(),
        ensures
            final(executor)@.wf(),
            match r {
                Ok(id) => {
                    &&& old(executor)@.admits(self.capacity() as nat)
                    &&& id == old(executor)@.next_id
                    &&& final(executor)@ == old(executor)@.spawned(future)
                },
                Err(SpawnError::QueueFull(f)) => {
                    &&& old(executor)@.queue.len() >= self.capacity()
                    &&& f == future
                    &&& final(executor)@ == old(executor)@
                },
                Err(SpawnError::IdsExhausted(f)) => {
                    &&& old(executor)@.queue.len() < self.capacity()
                    &&& old(executor)@.next_id == u64::MAX
                    &&& f == future
                    &&& final(executor)@ == old(executor)@
                },
            },
    {
        if executor.ready_queue.len() >= self.capacity {
            return Err(SpawnError::QueueFull(future));
        }
        if executor.next_id == u64::MAX {
            return Err(SpawnError::IdsExhausted(future));
        }
        let id: u64 = executor.next_id;
        executor.slots.insert(id, future);
        executor.ready_queue.push_back(id);
        executor.next_id = id + 1;
        proof {
            assert(executor@.slots == old(executor)@.slots.insert(id, future));
            assert(executor@.queue == old(executor)@.queue.push(id));
        }
        Ok(id)
    }
}

/// A scheduler with no task and a sender for it that stops admitting at
/// `DEFAULT_CAPACITY` queued entries.
pub fn new_executor_and_spawner<F>() -> (pair: (Executor<F>, Spawner))
    ensures
        pair.0@.wf(),
        pair.0@ == ExecutorState::<F>::empty(),
        pair.1.capacity() == DEFAULT_CAPACITY,
{
    (Executor::new(), Spawner::new(DEFAULT_CAPACITY))
}

/// The entries that `run` drops are exactly the leading ones whose slots
/// are empty: none of them has a future, and the entry after them, if
/// there is one, has.
pub proof fn lemma_stale_prefix<F>(queue: Seq<u64>, slots: Map<u64, F>)
    ensures
        stale_prefix(queue, slots) <= queue.len(),
        forall|j: int|
            0 <= j < stale_prefix(queue, slots) ==> !slots.contains_key(#[trigger] queue[j]),
        stale_prefix(queue, slots) < queue.len() ==> slots.contains_key(
            queue[stale_prefix(queue, slots) as int],
        ),
    decreases queue.len(),
{
    if queue.len() == 0 || slots.contains_key(queue[0]) {
    } else {
        let rest = queue.skip(1);
        lemma_stale_prefix(rest, slots);
        let k = stale_prefix(rest, slots) as int;
        assert forall|j: int| 0 <= j < k + 1 implies !slots.contains_key(#[trigger] queue[j]) by {
            if j > 0 {
                assert(queue[j] == rest[j - 1]);
            }
        }
        if k < rest.len() {
            assert(queue[k + 1] == rest[k]);
        }
    }
}

/// Tasks are polled in the order in which they were admitted: of two
/// tasks admitted one after the other to an idle scheduler, the first is
/// handed out first and the second next.
pub proof fn lemma_spawn_order_is_poll_order<F>(state: ExecutorState<F>, first: F, second: F)
    requires
        state.wf(),
        state.queue.len() == 0,
        state.next_id + 1 < u64::MAX,
    ensures
        state.spawned(first).spawned(second).next_task() == Some(
            Task { id: state.next_id as u64, future: first },
        ),
        state.spawned(first).spawned(second).after_run().next_task() == Some(
            Task { id: (state.next_id + 1) as u64, future: second },
        ),
{
    let a = state.next_id as u64;
    let b = (state.next_id + 1) as u64;
    let both = state.spawned(first).spawned(second);
    assert(both.queue =~= seq![a, b]);
    assert(both.slots.contains_key(a));
    assert(stale_prefix(both.queue, both.slots) == 0);
    let rest = both.after_run();
    assert(rest.queue =~= seq![b]);
    assert(rest.slots.contains_key(b));
    assert(stale_prefix(rest.queue, rest.slots) == 0);
}

/// A task that was admitted to an idle scheduler and finished at its
/// first poll is gone after that one poll: the poll takes its future, the
/// queue is empty again, and nothing is left in its slot.
pub proof fn lemma_ready_task_takes_one_poll<F>(state: ExecutorState<F>, future: F)
    requires
        state.wf(),
        state.queue.len() == 0,
        state.next_id < u64::MAX,
    ensures
        state.spawned(future).wf(),
        state.spawned(future).next_task() == Some(Task { id: state.next_id as u64, future }),
        state.spawned(future).after_run().queue == Seq::<u64>::empty(),
        !state.spawned(future).after_run().slots.contains_key(state.next_id as u64),
        state.spawned(future).after_run().next_task() == None::<Task<F>>,
{
    let id = state.next_id as u64;
    let one = state.spawned(future);
    assert(one.queue =~= seq![id]);
    assert(one.slots.contains_key(id));
    assert(stale_prefix(one.queue, one.slots) == 0);
    assert(one.after_run().queue =~= Seq::<u64>::empty());
}

/// A task whose slot is empty is never handed out, however often it is
/// woken: its queue entries are skipped. And its slot stays empty under
/// every step but parking that very task.
pub proof fn lemma_empty_slot_is_skipped<F>(state: ExecutorState<F>, id: u64)
    requires
        state.wf(),
        state.knows(id),
        !state.slots.contains_key(id),
    ensures
        match state.next_task() {
            Some(task) => task.id != id,
            None => true,
        },
        !state.after_run().slots.contains_key(id),
        forall|other: u64| !(#[trigger] state.woken(other)).slots.contains_key(id),
        forall|future: F| !(#[trigger] state.spawned(future)).slots.contains_key(id),
        forall|task: Task<F>|
            task.id != id ==> !(#[trigger] state.parked(task)).slots.contains_key(id),
        match state.woken(id).next_task() {
            Some(task) => task.id != id,
            None => true,
        },
{
    lemma_stale_prefix(state.queue, state.slots);
    lemma_stale_prefix(state.woken(id).queue, state.woken(id).slots);
}

/// A wakeup only adds an entry at the back: whatever `run` would have
/// handed out before the wakeup, it hands out after it, so a wakeup never
/// overtakes a task that is already queued with its future present.
pub proof fn lemma_wake_keeps_order<F>(state: ExecutorState<F>, id: u64)
    requires
        state.wf(),
        state.next_task() is Some,
    ensures
        state.woken(id).next_task() == state.next_task(),
{
    lemma_stale_prefix(state.queue, state.slots);
    if state.knows(id) {
        lemma_stale_prefix_push(state.queue, state.slots, id);
    }
}

proof fn lemma_stale_prefix_push<F>(queue: Seq<u64>, slots: Map<u64, F>, id: u64)
    requires
        stale_prefix(queue, slots) < queue.len(),
    ensures
        stale_prefix(queue.push(id), slots) == stale_prefix(queue, slots),
    decreases queue.len(),
{
    if slots.contains_key(queue[0]) {
        assert(queue.push(id)[0] == queue[0]);
    } else {
        assert(queue.push(id)[0] == queue[0]);
        assert(queue.push(id).skip(1) =~= queue.skip(1).push(id));
        lemma_stale_prefix_push(queue.skip(1), slots, id);
    }
}

proof fn lemma_parked_task_is_next<F>(queue: Seq<u64>, slots: Map<u64, F>, id: u64, future: F)
    requires
        forall|j: int| 0 <= j < queue.len() ==> !slots.contains_key(#[trigger] queue[j]),
    ensures
        stale_prefix(queue.push(id), slots.insert(id, future)) < queue.len() + 1,
        queue.push(id)[stale_prefix(queue.push(id), slots.insert(id, future)) as int] == id,
    decreases queue.len(),
{
    let pushed = queue.push(id);
    let parked = slots.insert(id, future);
    if queue.len() > 0 && queue[0] != id {
        assert(pushed[0] == queue[0]);
        assert(!slots.contains_key(queue[0]));
        assert(pushed.skip(1) =~= queue.skip(1).push(id));
        assert forall|j: int| 0 <= j < queue.skip(1).len() implies !slots.contains_key(
            #[trigger] queue.skip(1)[j],
        ) by {
            assert(queue.skip(1)[j] == queue[j + 1]);
        }
        lemma_parked_task_is_next(queue.skip(1), slots, id, future);
        let k = stale_prefix(pushed.skip(1), parked) as int;
        assert(pushed[k + 1] == pushed.skip(1)[k]);
    } else {
        assert(pushed[0] == id);
    }
}

/// A suspended task is resumed by the report of its descriptor. Let the
/// scheduler have nothing to poll, park `task`, and let the registry hold
/// the task's identity as the wakeup of `fd`. Then the round that reports
/// `fd` delivers that identity, and once it is woken the task is the next
/// one handed out, with the future that was parked.
pub proof fn lemma_reported_descriptor_resumes_task<F>(
    state: ExecutorState<F>,
    task: Task<F>,
    wakers: Map<RawFd, Registration<u64>>,
    fd: RawFd,
)
    requires
        state.wf(),
        state.can_park(task),
        state.next_task() is None,
        wakers.contains_key(fd),
        wakers[fd].waker == task.id,
    ensures
        dispatch_at(wakers, seq![fd], 0) == (Dispatch::Wake {
            fd,
            interest: wakers[fd].interest,
            waker: task.id,
        }),
        state.parked(task).woken(task.id).wf(),
        state.parked(task).woken(task.id).next_task() == Some(task),
{
    assert(seq![fd].take(0) =~= Seq::<RawFd>::empty());
    lemma_stale_prefix(state.queue, state.slots);
    lemma_parked_task_is_next(state.queue, state.slots, task.id, task.future);
    let resumed = state.parked(task).woken(task.id);
    assert(resumed.queue == state.queue.push(task.id));
    assert(resumed.slots == state.slots.insert(task.id, task.future));
}

} // verus!
