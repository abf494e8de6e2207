//! The work queue of the executor: an unbounded first-in, first-out
//! channel of task identifiers.

use vstd::prelude::*;

verus! {

/// Identifies a task of one executor: the number of tasks spawned before it.
pub type TaskId = usize;

/// `flume::Sender`, the sending half of a channel. Nothing is known of what
/// is inside it.
#[verifier::external_type_specification]
#[verifier::external_body]
#[verifier::reject_recursive_types(T)]
pub struct ExSender<T>(flume::Sender<T>);

/// `flume::Receiver`, the receiving half of a channel. Nothing is known of
/// what is inside it but what [`pending`] names.
#[verifier::external_type_specification]
#[verifier::external_body]
#[verifier::reject_recursive_types(T)]
pub struct ExReceiver<T>(flume::Receiver<T>);

/// The messages that wait in the channel behind a receiver, oldest first.
pub uninterp spec fn pending(rx: flume::Receiver<usize>) -> Seq<usize>;

/// The work queue: an unbounded channel of task identifiers. Both halves
/// belong to one channel, and nothing else holds a half of it: the only way
/// to make a work queue is [`WorkQueue::new`], and the halves never leave it.
pub struct WorkQueue {
    tx: flume::Sender<usize>,
    rx: flume::Receiver<usize>,
}

impl View for WorkQueue {
    type V = Seq<usize>;

    closed spec fn view(&self) -> Seq<usize> {
        pending(self.rx)
    }
}

/// `flume::unbounded`: a new channel, which holds no message.
#[verifier::external_body]
fn channel_new() -> (q: WorkQueue)
    ensures
        pending(q.rx) == Seq::<usize>::empty(),
{
    let (tx, rx) = flume::unbounded();
    WorkQueue { tx, rx }
}

/// `flume::Sender::send` on the unbounded channel of a work queue: the
/// message goes behind all that wait. The send cannot fail, since the queue
/// keeps the receiver alive.
#[verifier::external_body]
fn channel_send(q: &mut WorkQueue, id: usize)
    ensures
        pending(final(q).rx) == pending(old(q).rx).push(id),
{
    let _ = q.tx.send(id);
}

/// `flume::Receiver::try_recv`: takes the oldest waiting message out of the
/// channel and hands it out, or hands out nothing where none waits.
#[verifier::external_body]
fn channel_try_recv(q: &mut WorkQueue) -> (r: Option<usize>)
    ensures
        pending(old(q).rx).len() == 0 ==> r.is_none() && pending(final(q).rx) == pending(
            old(q).rx,
        ),
        pending(old(q).rx).len() > 0 ==> r == Some(pending(old(q).rx)[0]) && pending(final(q).rx)
            == pending(old(q).rx).drop_first(),
{
    q.rx.try_recv().ok()
}

impl WorkQueue {
    /// An empty queue.
    pub fn new() -> (q: Self)
        ensures
            q@ == Seq::<usize>::empty(),
    {
        channel_new()
    }

    /// Appends `id` at the tail.
    pub fn push(&mut self, id: TaskId)
        ensures
            final(self)@ == old(self)@.push(id),
    {
        channel_send(self, id)
    }

    /// Takes the head of the queue: the identifier that has waited longest.
    pub fn pop(&mut self) -> (r: Option<TaskId>)
        ensures
            old(self)@.len() == 0 ==> r.is_none() && final(self)@ == old(self)@,
            old(self)@.len() > 0 ==> r == Some(old(self)@[0]) && final(self)@
                == old(self)@.drop_first(),
    {
        channel_try_recv(self)
    }
}

} // verus!
