//! The executor: the work queue, the rule that decides whether a woken
//! computation is driven at once or queued, and the life of a task from
//! spawn to completion, failure or abort.
//!
//! The executor never runs a computation itself. It tells its caller what
//! to do ([`Dispatch`], [`DriveStep`]) and is told how a drive step ended
//! ([`Outcome`]).

use crate::async_::queue::WorkQueue;
use crate::host::event::{Event, PostedQueue};
use vstd::prelude::*;

verus! {

pub use crate::async_::queue::TaskId;

/// The error of a task whose computation panicked.
#[derive(Clone, Copy, Debug, PartialEq, Eq, Structural)]
pub struct RuntimeError;

impl RuntimeError {
    /// The text that describes the error.
    pub fn message(&self) -> (s: String)
        ensures
            s@ == "Error: task panicked"@,
    {
        "Error: task panicked".to_string()
    }
}

/// Where a task is in its life.
#[derive(Clone, Copy, Debug, PartialEq, Eq, Structural)]
pub enum Phase {
    /// Suspended: it waits for a wake.
    Idle,
    /// A drive step of it is under way.
    Running,
    /// Its computation has returned.
    Finished,
    /// Its computation has panicked.
    Failed,
    /// It was aborted, and its computation destroyed without further polling.
    Cancelled,
}

/// What the executor records of one task.
#[derive(Clone, Copy, Debug, PartialEq, Eq, Structural)]
pub struct Slot {
    pub phase: Phase,
    /// Whether the task waits in the work queue.
    pub enqueued: bool,
    /// Whether its handle was dropped while it was pending.
    pub abort: bool,
    /// Whether its handle was detached.
    pub detached: bool,
}

/// What the caller of the executor does with a task after a wake.
#[derive(Clone, Copy, Debug, PartialEq, Eq, Structural)]
pub enum Dispatch {
    /// Drive the task now, inline.
    Run(TaskId),
    /// Nothing now: the task waits in the work queue, and the executor's
    /// event is posted so that the queue is drained on a later iteration.
    Queued,
    /// Nothing: the wake has no effect.
    Ignored,
}

/// What the caller does when it is about to drive a task.
#[derive(Clone, Copy, Debug, PartialEq, Eq, Structural)]
pub enum DriveStep {
    /// Poll the computation once, then report the outcome.
    Poll,
    /// Destroy the computation without polling it.
    Discard,
    /// Nothing: the task cannot be driven.
    Skip,
}

/// How a drive step ended.
#[derive(Clone, Copy, Debug, PartialEq, Eq, Structural)]
pub enum Outcome {
    /// The computation suspended.
    Suspended,
    /// The computation returned.
    Completed,
    /// The computation panicked; the panic was caught.
    Panicked,
}

/// Whether a task in `phase` will never be driven again.
pub open spec fn is_terminal(phase: Phase) -> bool {
    phase == Phase::Finished || phase == Phase::Failed || phase == Phase::Cancelled
}

/// The state of an executor.
pub struct ExecState {
    /// One slot for each task spawned, by identifier.
    pub slots: Seq<Slot>,
    /// The work queue, head first.
    pub queue: Seq<TaskId>,
    /// The event that the executor posts to have its queue drained.
    pub event: Event,
}

impl ExecState {
    /// The queue holds no task twice, only tasks that exist, and exactly
    /// those that are marked as enqueued.
    pub open spec fn wf(self) -> bool {
        &&& self.queue.no_duplicates()
        &&& forall|i: int| 0 <= i < self.queue.len() ==> #[trigger] self.queue[i] < self.slots.len()
        &&& forall|id: TaskId|
            id < self.slots.len() ==> ((#[trigger] self.slots[id as int]).enqueued
                <==> self.queue.contains(id))
    }

    /// Whether a task `id` was spawned.
    pub open spec fn known(self, id: TaskId) -> bool {
        id < self.slots.len()
    }

    /// Whether task `id` has finished, failed or been cancelled.
    pub open spec fn is_finished(self, id: TaskId) -> bool {
        self.known(id) && is_terminal(self.slots[id as int].phase)
    }

    /// This state with `slot` in place of the slot of task `id`.
    pub open spec fn with_slot(self, id: TaskId, slot: Slot) -> ExecState {
        ExecState { slots: self.slots.update(id as int, slot), ..self }
    }

    /// The state after a new task was registered.
    pub open spec fn spawn(self) -> ExecState {
        ExecState {
            slots: self.slots.push(
                Slot { phase: Phase::Idle, enqueued: false, abort: false, detached: false },
            ),
            ..self
        }
    }

    /// The state after task `id` was scheduled. A task woken while it was
    /// running goes to the tail of the work queue, unless it waits there
    /// already, and the executor's event is posted. Any other wake leaves
    /// the state as it is: the task is driven inline.
    pub open spec fn schedule(self, id: TaskId, woken_while_running: bool) -> ExecState {
        if woken_while_running && self.known(id) {
            let slot = self.slots[id as int];
            ExecState {
                slots: self.slots.update(id as int, Slot { enqueued: true, ..slot }),
                queue: if slot.enqueued {
                    self.queue
                } else {
                    self.queue.push(id)
                },
                event: Event { posted: true, ..self.event },
            }
        } else {
            self
        }
    }

    /// What the caller does after task `id` was scheduled.
    pub open spec fn schedule_dispatch(self, id: TaskId, woken_while_running: bool) -> Dispatch {
        if !self.known(id) {
            Dispatch::Ignored
        } else if woken_while_running {
            Dispatch::Queued
        } else {
            Dispatch::Run(id)
        }
    }

    /// The posted-event queue `next` after task `id` was scheduled: the
    /// executor's event goes to its tail when a task was queued and the
    /// event was not yet posted.
    pub open spec fn schedule_posted(
        self,
        id: TaskId,
        woken_while_running: bool,
        next: Seq<usize>,
    ) -> Seq<usize> {
        if woken_while_running && self.known(id) && !self.event.posted {
            next.push(self.event.data)
        } else {
            next
        }
    }

    /// Whether a wake of task `id` has an effect: the task exists, can
    /// still be driven, and does not wait in the work queue already.
    pub open spec fn wakeable(self, id: TaskId) -> bool {
        &&& self.known(id)
        &&& !is_terminal(self.slots[id as int].phase)
        &&& !self.slots[id as int].enqueued
    }

    /// Whether task `id` is being driven.
    pub open spec fn is_running(self, id: TaskId) -> bool {
        self.known(id) && self.slots[id as int].phase == Phase::Running
    }

    /// The state after task `id` was woken.
    pub open spec fn wake(self, id: TaskId) -> ExecState {
        if self.wakeable(id) {
            self.schedule(id, self.is_running(id))
        } else {
            self
        }
    }

    /// What the caller does after task `id` was woken.
    pub open spec fn wake_dispatch(self, id: TaskId) -> Dispatch {
        if self.wakeable(id) {
            self.schedule_dispatch(id, self.is_running(id))
        } else {
            Dispatch::Ignored
        }
    }

    /// The posted-event queue `next` after task `id` was woken.
    pub open spec fn wake_posted(self, id: TaskId, next: Seq<usize>) -> Seq<usize> {
        if self.wakeable(id) {
            self.schedule_posted(id, self.is_running(id), next)
        } else {
            next
        }
    }

    /// The state after the head of the work queue was taken.
    pub open spec fn pop(self) -> ExecState {
        if self.queue.len() == 0 {
            self
        } else {
            let id = self.queue[0];
            ExecState {
                slots: if self.known(id) {
                    self.slots.update(id as int, Slot { enqueued: false, ..self.slots[id as int] })
                } else {
                    self.slots
                },
                queue: self.queue.drop_first(),
                ..self
            }
        }
    }

    /// What the caller does when it is about to drive task `id`.
    pub open spec fn drive_step(self, id: TaskId) -> DriveStep {
        if !self.known(id) || self.slots[id as int].phase != Phase::Idle {
            DriveStep::Skip
        } else if self.slots[id as int].abort {
            DriveStep::Discard
        } else {
            DriveStep::Poll
        }
    }

    /// The state after the caller asked to drive task `id`.
    pub open spec fn begin_drive(self, id: TaskId) -> ExecState {
        match self.drive_step(id) {
            DriveStep::Skip => self,
            DriveStep::Discard => self.with_slot(
                id,
                Slot { phase: Phase::Cancelled, ..self.slots[id as int] },
            ),
            DriveStep::Poll => self.with_slot(
                id,
                Slot { phase: Phase::Running, ..self.slots[id as int] },
            ),
        }
    }

    /// The phase of a running task after a drive step that ended in
    /// `outcome`.
    pub open spec fn phase_after(slot: Slot, outcome: Outcome) -> Phase {
        match outcome {
            Outcome::Completed => Phase::Finished,
            Outcome::Panicked => Phase::Failed,
            Outcome::Suspended => if slot.abort {
                Phase::Cancelled
            } else {
                Phase::Idle
            },
        }
    }

    /// The state after a drive step of task `id` ended in `outcome`.
    pub open spec fn finish_drive(self, id: TaskId, outcome: Outcome) -> ExecState {
        if self.is_running(id) {
            let slot = self.slots[id as int];
            self.with_slot(id, Slot { phase: Self::phase_after(slot, outcome), ..slot })
        } else {
            self
        }
    }

    /// Whether dropping the handle of task `id` requests an abort: the
    /// task exists, is not detached, and has not come to an end.
    pub open spec fn abortable(self, id: TaskId) -> bool {
        &&& self.known(id)
        &&& !self.slots[id as int].detached
        &&& !is_terminal(self.slots[id as int].phase)
    }

    /// The state after the handle of task `id` was dropped.
    pub open spec fn drop_handle(self, id: TaskId) -> ExecState {
        if self.abortable(id) {
            self.with_slot(id, Slot { abort: true, ..self.slots[id as int] })
        } else {
            self
        }
    }

    /// What the caller does after the handle of task `id` was dropped: a
    /// suspended task that waits nowhere is driven once more, so that its
    /// computation is destroyed.
    pub open spec fn drop_dispatch(self, id: TaskId) -> Dispatch {
        if self.abortable(id) && self.slots[id as int].phase == Phase::Idle
            && !self.slots[id as int].enqueued {
            Dispatch::Run(id)
        } else {
            Dispatch::Ignored
        }
    }

    /// The state after the handle of task `id` was detached.
    pub open spec fn detach(self, id: TaskId) -> ExecState {
        if self.known(id) {
            self.with_slot(id, Slot { detached: true, ..self.slots[id as int] })
        } else {
            self
        }
    }
}

/// The executor of one thread.
pub struct Executor {
    slots: Vec<Slot>,
    queue: WorkQueue,
    event: Event,
}

impl View for Executor {
    type V = ExecState;

    closed spec fn view(&self) -> ExecState {
        ExecState { slots: self.slots@, queue: self.queue@, event: self.event }
    }
}

impl Executor {
    /// An executor without tasks, whose event is `event_data` to the host.
    pub fn new(event_data: usize) -> (e: Self)
        ensures
            e@ == (ExecState {
                slots: Seq::<Slot>::empty(),
                queue: Seq::<TaskId>::empty(),
                event: Event::spec_new(event_data),
            }),
            e@.wf(),
    {
        Executor { slots: Vec::new(), queue: WorkQueue::new(), event: Event::new(event_data) }
    }

    /// The number of tasks spawned so far.
    pub fn len(&self) -> (n: usize)
        ensures
            n == self@.slots.len(),
    {
        self.slots.len()
    }

    /// What the executor records of task `id`.
    pub fn slot(&self, id: TaskId) -> (r: Option<Slot>)
        ensures
            self@.known(id) ==> r == Some(self@.slots[id as int]),
            !self@.known(id) ==> r.is_none(),
    {
        if id < self.slots.len() {
            Some(self.slots[id])
        } else {
            None
        }
    }

    /// The event that the executor posts to have its queue drained.
    pub fn event(&self) -> (e: Event)
        ensures
            e == self@.event,
    {
        self.event
    }

    /// Whether task `id` has come to an end: its computation returned or
    /// panicked, or it was aborted.
    pub fn is_finished(&self, id: TaskId) -> (r: bool)
        ensures
            r == self@.is_finished(id),
    {
        if id < self.slots.len() {
            match self.slots[id].phase {
                Phase::Finished | Phase::Failed | Phase::Cancelled => true,
                _ => false,
            }
        } else {
            false
        }
    }

    /// Schedules task `id`. This is the scheduling rule: a task woken while
    /// it was running goes to the work queue and the executor's event to
    /// `next`, the posted-event queue of the next iteration; a task woken
    /// otherwise is to be driven at once, inline.
    pub fn schedule(&mut self, id: TaskId, woken_while_running: bool, next: &mut PostedQueue) -> (d:
        Dispatch)
        requires
            old(self)@.wf(),
        ensures
            final(self)@ == old(self)@.schedule(id, woken_while_running),
            d == old(self)@.schedule_dispatch(id, woken_while_running),
            final(next)@ == old(self)@.schedule_posted(id, woken_while_running, old(next)@),
            final(self)@.wf(),
    {
        if id >= self.slots.len() {
            return Dispatch::Ignored;
        }
        if woken_while_running {
            let slot = self.slots[id];
            if !slot.enqueued {
                self.queue.push(id);
                self.slots[id] = Slot { enqueued: true, ..slot };
            }
            self.event.post_event(next);
            proof {
                lemma_push_wf(old(self)@, id);
                assert(self@.slots =~= old(self)@.schedule(id, true).slots);
            }
            Dispatch::Queued
        } else {
            Dispatch::Run(id)
        }
    }

    /// Schedules task `id` on behalf of a wake that came from another
    /// thread than the executor's. Such a wake never has the task driven
    /// inline: the task goes to the work queue and the executor's event to
    /// `next`, as for a task woken while it was running.
    pub fn schedule_remote(&mut self, id: TaskId, next: &mut PostedQueue) -> (d: Dispatch)
        requires
            old(self)@.wf(),
        ensures
            final(self)@ == old(self)@.schedule(id, true),
            d == old(self)@.schedule_dispatch(id, true),
            d != Dispatch::Run(id),
            final(next)@ == old(self)@.schedule_posted(id, true, old(next)@),
            final(self)@.wf(),
    {
        self.schedule(id, true, next)
    }

    /// Registers a new task and schedules it for its first drive step, which
    /// its spawner performs before it goes on: the task is to be driven at
    /// once.
    pub fn spawn(&mut self, next: &mut PostedQueue) -> (r: (TaskId, Dispatch))
        requires
            old(self)@.wf(),
        ensures
            r.0 == old(self)@.slots.len(),
            r.1 == Dispatch::Run(r.0),
            final(self)@ == old(self)@.spawn(),
            final(next)@ == old(next)@,
            final(self)@.wf(),
    {
        let id = self.slots.len();
        self.slots.push(Slot { phase: Phase::Idle, enqueued: false, abort: false, detached: false });
        proof {
            lemma_spawn_wf(old(self)@);
        }
        let d = self.schedule(id, false, next);
        (id, d)
    }

    /// Wakes task `id`. A wake of a task that is being driven queues it; a
    /// wake of a suspended task has it driven at once; a wake of a task that
    /// waits in the queue already, or that has come to an end, does nothing.
    pub fn wake(&mut self, id: TaskId, next: &mut PostedQueue) -> (d: Dispatch)
        requires
            old(self)@.wf(),
        ensures
            final(self)@ == old(self)@.wake(id),
            d == old(self)@.wake_dispatch(id),
            final(next)@ == old(self)@.wake_posted(id, old(next)@),
            final(self)@.wf(),
    {
        if id >= self.slots.len() {
            return Dispatch::Ignored;
        }
        let slot = self.slots[id];
        match slot.phase {
            Phase::Finished | Phase::Failed | Phase::Cancelled => Dispatch::Ignored,
            Phase::Running => {
                if slot.enqueued {
                    Dispatch::Ignored
                } else {
                    self.schedule(id, true, next)
                }
            },
            Phase::Idle => {
                if slot.enqueued {
                    Dispatch::Ignored
                } else {
                    self.schedule(id, false, next)
                }
            },
        }
    }

    /// Marks the executor's event as no longer posted: the host has taken
    /// it out of its queue and is about to call the handler that drains the
    /// work queue.
    pub fn begin_drain(&mut self)
        ensures
            final(self)@ == (ExecState {
                event: Event { posted: false, ..old(self)@.event },
                ..old(self)@
            }),
    {
        self.event.posted = false;
    }

    /// Takes the task at the head of the work queue.
    pub fn next_queued(&mut self) -> (r: Option<TaskId>)
        requires
            old(self)@.wf(),
        ensures
            final(self)@ == old(self)@.pop(),
            old(self)@.queue.len() == 0 ==> r.is_none(),
            old(self)@.queue.len() > 0 ==> r == Some(old(self)@.queue[0]),
            final(self)@.wf(),
    {
        let r = self.queue.pop();
        match r {
            None => None,
            Some(id) => {
                assert(old(self)@.queue[0] == id);
                assert(id < self.slots.len());
                let slot = self.slots[id];
                self.slots[id] = Slot { enqueued: false, ..slot };
                proof {
                    lemma_pop_wf(old(self)@);
                    assert(self@.slots =~= old(self)@.pop().slots);
                }
                Some(id)
            },
        }
    }

    /// Asks to drive task `id`. Only a suspended task is driven. One whose
    /// abort was requested is cancelled instead, and its computation is to
    /// be destroyed without a poll.
    pub fn begin_drive(&mut self, id: TaskId) -> (step: DriveStep)
        requires
            old(self)@.wf(),
        ensures
            step == old(self)@.drive_step(id),
            final(self)@ == old(self)@.begin_drive(id),
            final(self)@.wf(),
    {
        if id >= self.slots.len() {
            return DriveStep::Skip;
        }
        let slot = self.slots[id];
        match slot.phase {
            Phase::Idle => {
                if slot.abort {
                    self.slots[id] = Slot { phase: Phase::Cancelled, ..slot };
                    proof {
                        lemma_with_slot_wf(old(self)@, id, Slot { phase: Phase::Cancelled, ..slot });
                    }
                    DriveStep::Discard
                } else {
                    self.slots[id] = Slot { phase: Phase::Running, ..slot };
                    proof {
                        lemma_with_slot_wf(old(self)@, id, Slot { phase: Phase::Running, ..slot });
                    }
                    DriveStep::Poll
                }
            },
            _ => DriveStep::Skip,
        }
    }

    /// Records how a drive step of task `id` ended, and returns the phase
    /// the task is in now. A computation that returned or panicked is never
    /// driven again; one that suspended after its abort was requested is
    /// cancelled.
    pub fn finish_drive(&mut self, id: TaskId, outcome: Outcome) -> (phase: Option<Phase>)
        requires
            old(self)@.wf(),
        ensures
            final(self)@ == old(self)@.finish_drive(id, outcome),
            old(self)@.known(id) ==> phase == Some(final(self)@.slots[id as int].phase),
            !old(self)@.known(id) ==> phase.is_none(),
            final(self)@.wf(),
    {
        if id >= self.slots.len() {
            return None;
        }
        let slot = self.slots[id];
        match slot.phase {
            Phase::Running => {
                let phase = match outcome {
                    Outcome::Completed => Phase::Finished,
                    Outcome::Panicked => Phase::Failed,
                    Outcome::Suspended => if slot.abort {
                        Phase::Cancelled
                    } else {
                        Phase::Idle
                    },
                };
                self.slots[id] = Slot { phase, ..slot };
                proof {
                    lemma_with_slot_wf(old(self)@, id, Slot { phase, ..slot });
                }
                Some(phase)
            },
            other => Some(other),
        }
    }

    /// Records that the handle of task `id` was dropped. Unless the task is
    /// detached or has come to an end, this requests its abort.
    pub fn drop_handle(&mut self, id: TaskId) -> (d: Dispatch)
        requires
            old(self)@.wf(),
        ensures
            final(self)@ == old(self)@.drop_handle(id),
            d == old(self)@.drop_dispatch(id),
            final(self)@.wf(),
    {
        if id >= self.slots.len() {
            return Dispatch::Ignored;
        }
        let slot = self.slots[id];
        if slot.detached {
            return Dispatch::Ignored;
        }
        match slot.phase {
            Phase::Finished | Phase::Failed | Phase::Cancelled => Dispatch::Ignored,
            Phase::Running => {
                self.slots[id] = Slot { abort: true, ..slot };
                proof {
                    lemma_with_slot_wf(old(self)@, id, Slot { abort: true, ..slot });
                }
                Dispatch::Ignored
            },
            Phase::Idle => {
                self.slots[id] = Slot { abort: true, ..slot };
                proof {
                    lemma_with_slot_wf(old(self)@, id, Slot { abort: true, ..slot });
                }
                if slot.enqueued {
                    Dispatch::Ignored
                } else {
                    Dispatch::Run(id)
                }
            },
        }
    }

    /// Records that the handle of task `id` was detached: the task runs to
    /// its end whatever becomes of the handle.
    pub fn detach(&mut self, id: TaskId)
        requires
            old(self)@.wf(),
        ensures
            final(self)@ == old(self)@.detach(id),
            final(self)@.wf(),
    {
        if id < self.slots.len() {
            let slot = self.slots[id];
            self.slots[id] = Slot { detached: true, ..slot };
            proof {
                lemma_with_slot_wf(old(self)@, id, Slot { detached: true, ..slot });
            }
        }
    }
}

/// A new task keeps the state well formed.
pub proof fn lemma_spawn_wf(s: ExecState)
    requires
        s.wf(),
    ensures
        s.spawn().wf(),
{
    let t = s.spawn();
    assert forall|id: TaskId| id < t.slots.len() implies ((#[trigger] t.slots[id as int]).enqueued
        <==> t.queue.contains(id)) by {
        if id < s.slots.len() {
            assert(t.slots[id as int] == s.slots[id as int]);
        } else {
            if t.queue.contains(id) {
                let i = choose|i: int| 0 <= i < t.queue.len() && t.queue[i] == id;
                assert(s.queue[i] < s.slots.len());
            }
        }
    }
}

/// Changing a slot without touching its queue mark keeps the state well
/// formed.
pub proof fn lemma_with_slot_wf(s: ExecState, id: TaskId, slot: Slot)
    requires
        s.wf(),
        s.known(id),
        slot.enqueued == s.slots[id as int].enqueued,
    ensures
        s.with_slot(id, slot).wf(),
{
    let t = s.with_slot(id, slot);
    assert forall|k: TaskId| k < t.slots.len() implies ((#[trigger] t.slots[k as int]).enqueued
        <==> t.queue.contains(k)) by {
        if k != id {
            assert(t.slots[k as int] == s.slots[k as int]);
        }
    }
}

/// Queueing a task keeps the state well formed.
pub proof fn lemma_push_wf(s: ExecState, id: TaskId)
    requires
        s.wf(),
        s.known(id),
    ensures
        s.schedule(id, true).wf(),
{
    let t = s.schedule(id, true);
    if s.slots[id as int].enqueued {
        assert forall|k: TaskId| k < t.slots.len() implies ((#[trigger] t.slots[k as int]).enqueued
            <==> t.queue.contains(k)) by {
            if k != id {
                assert(t.slots[k as int] == s.slots[k as int]);
            }
        }
    } else {
        assert(!s.queue.contains(id));
        assert forall|i: int, j: int| 0 <= i < t.queue.len() && 0 <= j < t.queue.len() && i
            != j implies t.queue[i] != t.queue[j] by {
            if i < s.queue.len() && j < s.queue.len() {
            } else if i < s.queue.len() {
                assert(s.queue.contains(s.queue[i]));
            } else {
                assert(s.queue.contains(s.queue[j]));
            }
        }
        assert forall|k: TaskId| k < t.slots.len() implies ((#[trigger] t.slots[k as int]).enqueued
            <==> t.queue.contains(k)) by {
            if k == id {
                assert(t.queue[t.queue.len() - 1] == id);
            } else {
                assert(t.slots[k as int] == s.slots[k as int]);
                if s.queue.contains(k) {
                    let i = choose|i: int| 0 <= i < s.queue.len() && s.queue[i] == k;
                    assert(t.queue[i] == k);
                }
                if t.queue.contains(k) {
                    let i = choose|i: int| 0 <= i < t.queue.len() && t.queue[i] == k;
                    assert(s.queue[i] == k);
                }
            }
        }
    }
}

/// Taking the head of the queue keeps the state well formed.
pub proof fn lemma_pop_wf(s: ExecState)
    requires
        s.wf(),
    ensures
        s.pop().wf(),
{
    let t = s.pop();
    if s.queue.len() > 0 {
        let id = s.queue[0];
        assert forall|k: TaskId| k < t.slots.len() implies ((#[trigger] t.slots[k as int]).enqueued
            <==> t.queue.contains(k)) by {
            if k == id {
                if t.queue.contains(id) {
                    let i = choose|i: int| 0 <= i < t.queue.len() && t.queue[i] == id;
                    assert(s.queue[i + 1] == id);
                }
            } else {
                assert(t.slots[k as int] == s.slots[k as int]);
                if s.queue.contains(k) {
                    let i = choose|i: int| 0 <= i < s.queue.len() && s.queue[i] == k;
                    assert(t.queue[i - 1] == k);
                }
                if t.queue.contains(k) {
                    let i = choose|i: int| 0 <= i < t.queue.len() && t.queue[i] == k;
                    assert(s.queue[i + 1] == k);
                }
            }
        }
        assert forall|i: int| 0 <= i < t.queue.len() implies #[trigger] t.queue[i]
            < t.slots.len() by {
            assert(t.queue[i] == s.queue[i + 1]);
        }
    }
}

/// The handle of a spawned task. Who holds it can ask whether the task has
/// come to an end, detach it, or drop the handle, which aborts a task that
/// is not detached.
#[derive(Debug)]
pub struct Task {
    id: TaskId,
}

impl View for Task {
    type V = TaskId;

    closed spec fn view(&self) -> TaskId {
        self.id
    }
}

impl Task {
    /// The identifier of the task.
    pub fn id(&self) -> (id: TaskId)
        ensures
            id == self@,
    {
        self.id
    }

    /// Whether the task has come to an end.
    pub fn is_finished(&self, executor: &Executor) -> (r: bool)
        ensures
            r == executor@.is_finished(self@),
    {
        executor.is_finished(self.id)
    }

    /// Gives up the handle and lets the task run to its end.
    pub fn detach(self, executor: &mut Executor)
        requires
            old(executor)@.wf(),
        ensures
            final(executor)@ == old(executor)@.detach(self@),
            final(executor)@.wf(),
    {
        executor.detach(self.id)
    }

    /// Drops the handle, which requests the abort of a task that is still
    /// pending.
    pub fn cancel(self, executor: &mut Executor) -> (d: Dispatch)
        requires
            old(executor)@.wf(),
        ensures
            final(executor)@ == old(executor)@.drop_handle(self@),
            d == old(executor)@.drop_dispatch(self@),
            final(executor)@.wf(),
    {
        executor.drop_handle(self.id)
    }
}

/// Spawns a task on `executor` and hands out its handle, with the order to
/// drive the task once, now. Spawning does not fail.
pub fn spawn(executor: &mut Executor, next: &mut PostedQueue) -> (r: Result<
    (Task, Dispatch),
    RuntimeError,
>)
    requires
        old(executor)@.wf(),
    ensures
        r matches Ok((task, d)) && task@ == old(executor)@.slots.len() && d == Dispatch::Run(task@),
        final(executor)@ == old(executor)@.spawn(),
        final(next)@ == old(next)@,
        final(executor)@.wf(),
{
    let (id, d) = executor.spawn(next);
    Ok((Task { id }, d))
}

/// The state after one drive step of a suspended task `id` in which the
/// task wakes itself and then suspends.
pub open spec fn self_wake(s: ExecState, id: TaskId) -> ExecState {
    s.begin_drive(id).wake(id).finish_drive(id, Outcome::Suspended)
}

/// The state after the tasks `ids` each did such a step, in this order.
pub open spec fn self_wake_all(s: ExecState, ids: Seq<TaskId>) -> ExecState
    decreases ids.len(),
{
    if ids.len() == 0 {
        s
    } else {
        self_wake(self_wake_all(s, ids.drop_last()), ids.last())
    }
}

/// The tasks that `n` takes from the work queue hand out, in this order.
pub open spec fn drained(s: ExecState, n: nat) -> Seq<TaskId>
    decreases n,
{
    if n == 0 || s.queue.len() == 0 {
        Seq::empty()
    } else {
        seq![s.queue[0]] + drained(s.pop(), (n - 1) as nat)
    }
}

/// Whether task `id` is suspended, waits nowhere and is not to be aborted.
pub open spec fn is_parked(s: ExecState, id: TaskId) -> bool {
    &&& s.known(id)
    &&& s.slots[id as int].phase == Phase::Idle
    &&& !s.slots[id as int].enqueued
    &&& !s.slots[id as int].abort
}

/// A task that was just spawned is suspended, waits nowhere and is not to
/// be aborted, and the tasks spawned before it are as they were.
pub proof fn lemma_spawn_parks(s: ExecState)
    requires
        s.wf(),
    ensures
        s.spawn().wf(),
        is_parked(s.spawn(), s.slots.len() as TaskId) || s.slots.len() > usize::MAX,
        forall|x: TaskId|
            x < s.slots.len() ==> #[trigger] s.spawn().slots[x as int] == s.slots[x as int],
{
    lemma_spawn_wf(s);
}

/// A task that wakes itself while it is driven goes to the tail of the
/// work queue, the executor's event is posted, and no other task changes.
pub proof fn lemma_self_wake(s: ExecState, id: TaskId)
    requires
        s.wf(),
        is_parked(s, id),
    ensures
        self_wake(s, id).wf(),
        self_wake(s, id).queue == s.queue.push(id),
        self_wake(s, id).event.posted,
        self_wake(s, id).slots.len() == s.slots.len(),
        self_wake(s, id).slots[id as int] == (Slot { enqueued: true, ..s.slots[id as int] }),
        forall|x: TaskId|
            x != id && x < s.slots.len() ==> #[trigger] self_wake(s, id).slots[x as int]
                == s.slots[x as int],
{
    let a = s.begin_drive(id);
    lemma_with_slot_wf(s, id, Slot { phase: Phase::Running, ..s.slots[id as int] });
    let b = a.wake(id);
    lemma_push_wf(a, id);
    let c = b.finish_drive(id, Outcome::Suspended);
    lemma_with_slot_wf(b, id, Slot { phase: Phase::Idle, ..b.slots[id as int] });
}

/// Taking as many tasks as the queue holds hands out the queue, head first.
pub proof fn lemma_drained_all(s: ExecState)
    ensures
        drained(s, s.queue.len()) == s.queue,
    decreases s.queue.len(),
{
    if s.queue.len() > 0 {
        lemma_drained_all(s.pop());
        assert(seq![s.queue[0]] + s.queue.drop_first() =~= s.queue);
    }
}

/// FIFO order: when suspended tasks are driven one after the other and
/// each wakes itself during its step, the work queue holds them behind what
/// it held, in the order in which they were driven, and draining the queue
/// hands them out in that order.
pub proof fn lemma_fifo_order(s: ExecState, ids: Seq<TaskId>)
    requires
        s.wf(),
        ids.no_duplicates(),
        forall|i: int| 0 <= i < ids.len() ==> is_parked(s, #[trigger] ids[i]),
    ensures
        self_wake_all(s, ids).wf(),
        self_wake_all(s, ids).queue == s.queue + ids,
        self_wake_all(s, ids).slots.len() == s.slots.len(),
        forall|x: TaskId|
            x < s.slots.len() && !ids.contains(x) ==> #[trigger] self_wake_all(s, ids).slots[x as int]
                == s.slots[x as int],
        s.queue.len() == 0 ==> drained(self_wake_all(s, ids), ids.len()) == ids,
    decreases ids.len(),
{
    if ids.len() == 0 {
        assert(s.queue + ids =~= s.queue);
    } else {
        let p = ids.drop_last();
        let id = ids.last();
        let m = self_wake_all(s, p);
        lemma_fifo_order(s, p);
        assert(!p.contains(id)) by {
            if p.contains(id) {
                let i = choose|i: int| 0 <= i < p.len() && p[i] == id;
                assert(ids[i] == ids[ids.len() - 1]);
            }
        }
        assert(is_parked(s, ids[ids.len() - 1]));
        assert(m.slots[id as int] == s.slots[id as int]);
        lemma_self_wake(m, id);
        let t = self_wake(m, id);
        assert(t.queue =~= s.queue + ids);
        assert forall|x: TaskId| x < s.slots.len() && !ids.contains(x) implies #[trigger] t.slots[x as int]
            == s.slots[x as int] by {
            assert(x != id) by {
                assert(ids[ids.len() - 1] == id);
            }
            assert(!p.contains(x)) by {
                if p.contains(x) {
                    let i = choose|i: int| 0 <= i < p.len() && p[i] == x;
                    assert(ids[i] == x);
                }
            }
        }
    }
    if s.queue.len() == 0 {
        lemma_drained_all(self_wake_all(s, ids));
        assert(s.queue + ids =~= ids);
    }
}

/// Panic containment: once the computation of a running task has panicked,
/// the task counts as finished, and neither a wake nor a dropped handle nor
/// a request to drive it leads to another drive step.
pub proof fn lemma_panic_contained(s: ExecState, id: TaskId)
    requires
        s.is_running(id),
    ensures
        s.finish_drive(id, Outcome::Panicked).slots[id as int].phase == Phase::Failed,
        s.finish_drive(id, Outcome::Panicked).is_finished(id),
        s.finish_drive(id, Outcome::Panicked).drive_step(id) == DriveStep::Skip,
        s.finish_drive(id, Outcome::Panicked).wake_dispatch(id) == Dispatch::Ignored,
        s.finish_drive(id, Outcome::Panicked).drop_dispatch(id) == Dispatch::Ignored,
{
}

/// A task that has come to an end stays as it ended: no operation of the
/// executor, on it or on any other task, changes its phase, and no
/// request to drive it is granted.
pub proof fn lemma_end_is_final(
    s: ExecState,
    id: TaskId,
    other: TaskId,
    woken_while_running: bool,
    outcome: Outcome,
)
    requires
        s.wf(),
        s.is_finished(id),
    ensures
        s.drive_step(id) == DriveStep::Skip,
        s.wake_dispatch(id) == Dispatch::Ignored,
        s.spawn().slots[id as int].phase == s.slots[id as int].phase,
        s.schedule(other, woken_while_running).slots[id as int].phase == s.slots[id as int].phase,
        s.wake(other).slots[id as int].phase == s.slots[id as int].phase,
        s.pop().slots[id as int].phase == s.slots[id as int].phase,
        s.begin_drive(other).slots[id as int].phase == s.slots[id as int].phase,
        s.finish_drive(other, outcome).slots[id as int].phase == s.slots[id as int].phase,
        s.drop_handle(other).slots[id as int].phase == s.slots[id as int].phase,
        s.detach(other).slots[id as int].phase == s.slots[id as int].phase,
{
}

/// Abort on drop: when the handle of a pending task that is not detached
/// is dropped, the task is never polled again. A task that is suspended
/// and waits nowhere is handed to its driver at once, and the driver is
/// told to destroy its computation; a task that is being driven is
/// cancelled when it next suspends.
pub proof fn lemma_drop_aborts(s: ExecState, id: TaskId)
    requires
        s.wf(),
        s.abortable(id),
    ensures
        s.drop_handle(id).wf(),
        is_parked(s, id) ==> s.drop_dispatch(id) == Dispatch::Run(id),
        s.slots[id as int].phase == Phase::Idle ==> {
            &&& s.drop_handle(id).drive_step(id) == DriveStep::Discard
            &&& s.drop_handle(id).begin_drive(id).is_finished(id)
            &&& s.drop_handle(id).begin_drive(id).slots[id as int].phase == Phase::Cancelled
        },
        s.slots[id as int].phase == Phase::Running ==> {
            &&& s.drop_handle(id).finish_drive(id, Outcome::Suspended).slots[id as int].phase
                == Phase::Cancelled
            &&& s.drop_handle(id).finish_drive(id, Outcome::Suspended).is_finished(id)
        },
{
    lemma_with_slot_wf(s, id, Slot { abort: true, ..s.slots[id as int] });
}

/// A detached task outlives its handle: dropping the handle after the
/// detach changes nothing and asks for nothing.
pub proof fn lemma_detached_survives_drop(s: ExecState, id: TaskId)
    requires
        s.known(id),
    ensures
        s.detach(id).drop_handle(id) == s.detach(id),
        s.detach(id).drop_dispatch(id) == Dispatch::Ignored,
{
}

} // verus!
