//! Sleeping: a timer that wakes a task when the host fires it, and the
//! sleep built on it, which arms the timer as often as the requested
//! duration needs.

use crate::async_::poll::Poll;
use crate::async_::spawn::TaskId;
use crate::host::event::{
    has_id, lemma_without_id, timer_key, within_lazy_delay, without_id, Event, TimerNode,
    TimerTree,
};
use vstd::prelude::*;

verus! {

/// The longest time in milliseconds for which one timer can be armed: the
/// largest value of the host's signed millisecond type.
pub const NGX_TIMER_DURATION_MAX: u64 = 0x7fff_ffff_ffff_ffff;

/// Adds `event` to the timer tree, to fire `timer` milliseconds after
/// `now`. An event that is registered with a deadline within the lazy delay
/// of the new one keeps its registration.
pub fn ngx_add_timer(event: &mut Event, tree: &mut TimerTree, now: u64, timer: u64)
    ensures
        old(event).timer_set && within_lazy_delay(timer_key(now, timer), old(event).timer_key) ==> {
            &&& *final(event) == *old(event)
            &&& final(tree)@ == old(tree)@
        },
        !(old(event).timer_set && within_lazy_delay(timer_key(now, timer), old(event).timer_key))
            ==> {
            &&& *final(event) == (Event {
                timer_key: timer_key(now, timer),
                timer_set: true,
                ..*old(event)
            })
            &&& final(tree)@ == without_id(old(tree)@, old(event).data).push(
                TimerNode { key: timer_key(now, timer), id: old(event).data },
            )
        },
        old(event).registered_in(old(tree)) ==> final(event).registered_in(final(tree)),
{
    event.add_timer(tree, now, timer)
}

/// Removes `event` from the timer tree.
pub fn ngx_del_timer(event: &mut Event, tree: &mut TimerTree)
    ensures
        *final(event) == (Event { timer_set: false, ..*old(event) }),
        final(tree)@ == without_id(old(tree)@, old(event).data),
        !has_id(final(tree)@, old(event).data),
{
    event.del_timer(tree)
}

/// A timer event together with the task to wake when it fires.
#[derive(Clone, Copy, Debug, PartialEq, Eq, Structural)]
pub struct Timer {
    pub event: Event,
    pub waker: Option<TaskId>,
}

impl Timer {
    /// A timer that is not armed: its event is `data` to the host and may
    /// be dropped when the host shuts down.
    pub open spec fn spec_new(data: usize) -> Timer {
        Timer { event: Event { cancelable: true, ..Event::spec_new(data) }, waker: None }
    }

    /// A timer that is not armed.
    pub fn new(data: usize) -> (t: Self)
        ensures
            t == Timer::spec_new(data),
    {
        let mut event = Event::new(data);
        event.cancelable = true;
        Timer { event, waker: None }
    }

    /// Polls the timer for a sleep of `duration` milliseconds on behalf of
    /// task `waker`. An expired timer is ready. A timer that is armed stays
    /// as it is; one that is not is armed to fire `duration` milliseconds
    /// after `now`. In both cases `waker` replaces the task that was to be
    /// woken.
    pub fn poll_sleep(&mut self, tree: &mut TimerTree, now: u64, duration: u64, waker: TaskId) -> (r:
        Poll<()>)
        ensures
            old(self).event.timedout ==> {
                &&& r == Poll::Ready(())
                &&& *final(self) == *old(self)
                &&& final(tree)@ == old(tree)@
            },
            !old(self).event.timedout && old(self).event.timer_set ==> {
                &&& r == Poll::<()>::Pending
                &&& *final(self) == (Timer { waker: Some(waker), ..*old(self) })
                &&& final(tree)@ == old(tree)@
            },
            !old(self).event.timedout && !old(self).event.timer_set ==> {
                &&& r == Poll::<()>::Pending
                &&& *final(self) == (Timer {
                    event: Event {
                        timer_key: timer_key(now, duration),
                        timer_set: true,
                        ..old(self).event
                    },
                    waker: Some(waker),
                })
                &&& final(tree)@ == without_id(old(tree)@, old(self).event.data).push(
                    TimerNode { key: timer_key(now, duration), id: old(self).event.data },
                )
            },
            old(self).event.registered_in(old(tree)) ==> final(self).event.registered_in(
                final(tree),
            ),
    {
        if self.event.timedout {
            Poll::Ready(())
        } else if self.event.timer_set {
            self.waker = Some(waker);
            Poll::Pending
        } else {
            self.event.add_timer(tree, now, duration);
            self.waker = Some(waker);
            Poll::Pending
        }
    }

    /// The handler of the timer's event: hands out the task to wake, once.
    pub fn timer_handler(&mut self) -> (r: Option<TaskId>)
        ensures
            r == old(self).waker,
            *final(self) == (Timer { waker: None, ..*old(self) }),
    {
        self.waker.take()
    }

    /// Ends the timer's life: a timer that is armed leaves the timer tree,
    /// so that the host never fires a timer that is gone.
    pub fn cancel(&mut self, tree: &mut TimerTree)
        ensures
            *final(self) == (Timer {
                event: Event { timer_set: false, ..old(self).event },
                ..*old(self)
            }),
            old(self).event.timer_set ==> final(tree)@ == without_id(
                old(tree)@,
                old(self).event.data,
            ),
            !old(self).event.timer_set ==> final(tree)@ == old(tree)@,
            old(self).event.registered_in(old(tree)) ==> !has_id(
                final(tree)@,
                old(self).event.data,
            ),
    {
        if self.event.timer_set {
            self.event.del_timer(tree);
        }
    }
}

/// The length of the next arming of a sleep of which `remaining`
/// milliseconds are still to be armed.
pub open spec fn next_chunk(remaining: nat) -> u64 {
    if remaining > NGX_TIMER_DURATION_MAX {
        NGX_TIMER_DURATION_MAX
    } else {
        remaining as u64
    }
}

/// The state of a sleep.
pub struct SleepState {
    pub timer: Timer,
    /// The milliseconds for which the timer was armed so far, all armings
    /// together.
    pub armed: nat,
    /// The milliseconds of the requested duration that no arming covers
    /// yet.
    pub remaining: nat,
}

impl SleepState {
    /// A sleep of `duration` milliseconds that was not polled yet.
    pub open spec fn fresh(duration: nat, data: usize) -> SleepState {
        SleepState { timer: Timer::spec_new(data), armed: 0, remaining: duration }
    }

    /// Whether the timer of the sleep has expired.
    pub open spec fn expired(self) -> bool {
        self.timer.event.timedout
    }

    /// Whether a poll finds the sleep done: its timer has expired and all
    /// of the requested duration was armed.
    pub open spec fn ready(self) -> bool {
        self.expired() && self.remaining == 0
    }

    /// Whether a poll arms the timer: the sleep was never armed, or its
    /// timer expired before all of the duration was armed.
    pub open spec fn arms(self) -> bool {
        if self.expired() {
            self.remaining > 0
        } else {
            !self.timer.event.timer_set
        }
    }

    /// The state after a poll at `now` on behalf of task `waker`.
    pub open spec fn poll(self, now: u64, waker: TaskId) -> SleepState {
        if self.ready() {
            self
        } else if self.arms() {
            let chunk = next_chunk(self.remaining);
            SleepState {
                timer: Timer {
                    event: Event {
                        timer_key: timer_key(now, chunk),
                        timer_set: true,
                        timedout: false,
                        ..self.timer.event
                    },
                    waker: Some(waker),
                },
                armed: self.armed + chunk as nat,
                remaining: (self.remaining - chunk) as nat,
            }
        } else {
            SleepState { timer: Timer { waker: Some(waker), ..self.timer }, ..self }
        }
    }

    /// The timer tree `tree` after a poll at `now`.
    pub open spec fn poll_tree(self, tree: Seq<TimerNode>, now: u64) -> Seq<TimerNode> {
        if !self.ready() && self.arms() {
            without_id(tree, self.timer.event.data).push(
                TimerNode {
                    key: timer_key(now, next_chunk(self.remaining)),
                    id: self.timer.event.data,
                },
            )
        } else {
            tree
        }
    }

    /// The state after the host fired the timer: the event is out of the
    /// timer tree and marked as expired, and the task to wake was taken.
    pub open spec fn fire(self) -> SleepState {
        SleepState {
            timer: Timer {
                event: Event { timer_set: false, timedout: true, ..self.timer.event },
                waker: None,
            },
            ..self
        }
    }

    /// The state after one cycle for each clock reading in `nows`: a poll
    /// at that reading, after which the host fires the timer.
    pub open spec fn after_cycles(self, nows: Seq<u64>, waker: TaskId) -> SleepState
        decreases nows.len(),
    {
        if nows.len() == 0 {
            self
        } else {
            self.after_cycles(nows.drop_last(), waker).poll(nows.last(), waker).fire()
        }
    }
}

/// A sleep: a computation that suspends its task for at least a requested
/// duration. The timer is armed for at most [`NGX_TIMER_DURATION_MAX`]
/// milliseconds at a time, and again after it expired, until the armings
/// cover the duration.
pub struct Sleep {
    timer: Timer,
    armed: Ghost<nat>,
    remaining: u128,
}

impl View for Sleep {
    type V = SleepState;

    closed spec fn view(&self) -> SleepState {
        SleepState { timer: self.timer, armed: self.armed@, remaining: self.remaining as nat }
    }
}

/// Puts the calling task to sleep for at least `duration` milliseconds. The
/// sleep's timer event is `data` to the host. Nothing is armed before the
/// first poll.
pub fn sleep(duration: u128, data: usize) -> (s: Sleep)
    ensures
        s@ == SleepState::fresh(duration as nat, data),
{
    Sleep { timer: Timer::new(data), armed: Ghost(0), remaining: duration }
}

impl Sleep {
    /// The timer of the sleep.
    pub fn timer(&self) -> (t: Timer)
        ensures
            t == self@.timer,
    {
        self.timer
    }

    /// The milliseconds of the requested duration that no arming covers
    /// yet.
    pub fn remaining(&self) -> (r: u128)
        ensures
            r == self@.remaining,
    {
        self.remaining
    }

    /// Polls the sleep at `now` on behalf of task `waker`. The sleep is
    /// ready when its timer has expired and nothing of the duration remains.
    /// Otherwise the poll suspends: it arms the timer for the next part of
    /// the duration if the timer is not armed, and stores `waker`.
    pub fn poll(&mut self, tree: &mut TimerTree, now: u64, waker: TaskId) -> (r: Poll<()>)
        ensures
            old(self)@.ready() ==> r == Poll::Ready(()),
            !old(self)@.ready() ==> r == Poll::<()>::Pending,
            final(self)@ == old(self)@.poll(now, waker),
            final(tree)@ == old(self)@.poll_tree(old(tree)@, now),
            old(self)@.timer.event.registered_in(old(tree))
                ==> final(self)@.timer.event.registered_in(final(tree)),
    {
        if self.timer.event.timedout {
            if self.remaining == 0 {
                return Poll::Ready(());
            }
            self.timer.event.timedout = false;
        } else if self.timer.event.timer_set {
            self.timer.waker = Some(waker);
            return Poll::Pending;
        }
        let chunk: u64 = if self.remaining > NGX_TIMER_DURATION_MAX as u128 {
            NGX_TIMER_DURATION_MAX
        } else {
            self.remaining as u64
        };
        self.remaining = self.remaining - chunk as u128;
        proof {
            self.armed@ = self.armed@ + chunk as nat;
        }
        if self.timer.event.timer_set {
            // An expired timer that the host did not take out of the tree.
            self.timer.event.del_timer(tree);
            proof {
                let id = self.timer.event.data;
                lemma_without_id(old(tree)@, id, id);
                lemma_without_id(without_id(old(tree)@, id), id, id);
            }
        }
        self.timer.poll_sleep(tree, now, chunk, waker)
    }

    /// Marks the timer as expired, as the host does when the deadline has
    /// passed, and hands out the task to wake.
    pub fn fire(&mut self) -> (r: Option<TaskId>)
        ensures
            r == old(self)@.timer.waker,
            final(self)@ == old(self)@.fire(),
    {
        self.timer.event.expire();
        self.timer.timer_handler()
    }

    /// Ends the sleep before it is done: an armed timer leaves the timer
    /// tree.
    pub fn cancel(&mut self, tree: &mut TimerTree)
        ensures
            final(self)@ == (SleepState {
                timer: Timer {
                    event: Event { timer_set: false, ..old(self)@.timer.event },
                    ..old(self)@.timer
                },
                ..old(self)@
            }),
            old(self)@.timer.event.timer_set ==> final(tree)@ == without_id(
                old(tree)@,
                old(self)@.timer.event.data,
            ),
            !old(self)@.timer.event.timer_set ==> final(tree)@ == old(tree)@,
            old(self)@.timer.event.registered_in(old(tree)) ==> !has_id(
                final(tree)@,
                old(self)@.timer.event.data,
            ),
    {
        self.timer.cancel(tree)
    }
}

/// A poll never loses any of the duration: what was armed and what remains
/// add up to the same before and after; a poll arms at most the longest
/// time a timer can take; and a sleep is ready only when nothing remains.
pub proof fn lemma_poll_keeps_duration(s: SleepState, now: u64, waker: TaskId)
    ensures
        s.poll(now, waker).armed + s.poll(now, waker).remaining == s.armed + s.remaining,
        s.poll(now, waker).armed - s.armed <= NGX_TIMER_DURATION_MAX,
        s.ready() ==> s.remaining == 0,
        !s.ready() ==> !s.poll(now, waker).expired(),
{
}

/// A sleep resolves only after its whole duration: after `nows.len()`
/// cycles of arming and expiry the timer was armed for the whole duration
/// or for that many times the longest arming, whichever is less; so the
/// sleep is ready after a cycle exactly when the armings cover the
/// duration, and it has then been armed for the duration, no more and no
/// less.
pub proof fn lemma_sleep_covers_duration(duration: nat, data: usize, nows: Seq<u64>, waker: TaskId)
    requires
        nows.len() > 0,
    ensures
        ({
            let s = SleepState::fresh(duration, data).after_cycles(nows, waker);
            let most = nows.len() * NGX_TIMER_DURATION_MAX;
            &&& s.expired()
            &&& !s.timer.event.timer_set
            &&& s.armed + s.remaining == duration
            &&& s.armed == if duration <= most {
                duration as int
            } else {
                most
            }
            &&& s.ready() <==> duration <= most
            &&& s.ready() ==> s.armed == duration
        }),
    decreases nows.len(),
{
    let f = SleepState::fresh(duration, data);
    let p = nows.drop_last();
    if p.len() == 0 {
        assert(f.after_cycles(p, waker) == f);
        assert(nows.len() == 1);
    } else {
        lemma_sleep_covers_duration(duration, data, p, waker);
        assert(nows.len() == p.len() + 1);
        assert(nows.len() * NGX_TIMER_DURATION_MAX == p.len() * NGX_TIMER_DURATION_MAX
            + NGX_TIMER_DURATION_MAX) by (nonlinear_arith)
            requires
                nows.len() == p.len() + 1,
        ;
    }
}

} // verus!
