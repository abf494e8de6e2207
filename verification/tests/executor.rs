use ngx_runtime::async_::queue::WorkQueue;
use ngx_runtime::async_::spawn::{
    spawn, Dispatch, DriveStep, Executor, Outcome, Phase, RuntimeError,
};
use ngx_runtime::host::event::PostedQueue;

#[test]
fn work_queue_is_fifo() {
    let mut q = WorkQueue::new();
    assert_eq!(q.pop(), None);
    q.push(3);
    q.push(1);
    q.push(2);
    assert_eq!(q.pop(), Some(3));
    q.push(9);
    assert_eq!(q.pop(), Some(1));
    assert_eq!(q.pop(), Some(2));
    assert_eq!(q.pop(), Some(9));
    assert_eq!(q.pop(), None);
}

#[test]
fn spawn_asks_for_an_immediate_drive() {
    let mut ex = Executor::new(100);
    let mut next = PostedQueue::new();
    let (a, d) = ex.spawn(&mut next);
    assert_eq!(a, 0);
    assert_eq!(d, Dispatch::Run(0));
    let (b, d) = ex.spawn(&mut next);
    assert_eq!(b, 1);
    assert_eq!(d, Dispatch::Run(1));
    assert_eq!(ex.len(), 2);
    assert!(next.is_empty());
    assert!(!ex.is_finished(a));
    assert_eq!(ex.slot(a).unwrap().phase, Phase::Idle);
    assert_eq!(ex.slot(7), None);
}

#[test]
fn wake_of_a_suspended_task_is_driven_inline() {
    let mut ex = Executor::new(100);
    let mut next = PostedQueue::new();
    let (id, _) = ex.spawn(&mut next);
    assert_eq!(ex.begin_drive(id), DriveStep::Poll);
    assert_eq!(ex.finish_drive(id, Outcome::Suspended), Some(Phase::Idle));
    assert_eq!(ex.wake(id, &mut next), Dispatch::Run(id));
    assert!(next.is_empty());
    assert_eq!(ex.next_queued(), None);
    assert!(!ex.event().posted);
}

#[test]
fn wake_while_running_queues_and_posts() {
    let mut ex = Executor::new(100);
    let mut next = PostedQueue::new();
    let (id, _) = ex.spawn(&mut next);
    assert_eq!(ex.begin_drive(id), DriveStep::Poll);
    assert_eq!(ex.wake(id, &mut next), Dispatch::Queued);
    assert!(ex.event().posted);
    assert_eq!(next.len(), 1);
    assert!(next.contains(100));
    // A second wake during the same step adds nothing.
    assert_eq!(ex.wake(id, &mut next), Dispatch::Ignored);
    assert_eq!(next.len(), 1);
    assert_eq!(ex.finish_drive(id, Outcome::Suspended), Some(Phase::Idle));
    // A wake while it waits in the queue adds nothing either.
    assert_eq!(ex.wake(id, &mut next), Dispatch::Ignored);
    // The host takes the event and the handler drains the queue.
    assert_eq!(next.pop_front(), Some(100));
    ex.begin_drain();
    assert!(!ex.event().posted);
    assert_eq!(ex.next_queued(), Some(id));
    assert_eq!(ex.next_queued(), None);
    assert_eq!(ex.begin_drive(id), DriveStep::Poll);
}

#[test]
fn schedule_follows_the_flag() {
    let mut ex = Executor::new(5);
    let mut next = PostedQueue::new();
    let (id, _) = ex.spawn(&mut next);
    assert_eq!(ex.schedule(id, false, &mut next), Dispatch::Run(id));
    assert!(next.is_empty());
    assert_eq!(ex.schedule(id, true, &mut next), Dispatch::Queued);
    assert_eq!(next.len(), 1);
    // Scheduled again before the drain: queued once, posted once.
    assert_eq!(ex.schedule(id, true, &mut next), Dispatch::Queued);
    assert_eq!(next.len(), 1);
    assert_eq!(ex.next_queued(), Some(id));
    assert_eq!(ex.next_queued(), None);
    // A task that was never spawned.
    assert_eq!(ex.schedule(9, true, &mut next), Dispatch::Ignored);
    assert_eq!(ex.schedule(9, false, &mut next), Dispatch::Ignored);
}

#[test]
fn self_waking_tasks_drain_in_fifo_order() {
    let mut ex = Executor::new(100);
    let mut next = PostedQueue::new();
    let n = 5;
    let mut ids = Vec::new();
    for _ in 0..n {
        let (id, d) = ex.spawn(&mut next);
        assert_eq!(d, Dispatch::Run(id));
        ids.push(id);
    }
    // First drive of each, in spawn order; each wakes itself once.
    for &id in &ids {
        assert_eq!(ex.begin_drive(id), DriveStep::Poll);
        assert_eq!(ex.wake(id, &mut next), Dispatch::Queued);
        assert_eq!(ex.finish_drive(id, Outcome::Suspended), Some(Phase::Idle));
    }
    assert_eq!(next.len(), 1);
    ex.begin_drain();
    let mut order = Vec::new();
    while let Some(id) = ex.next_queued() {
        assert_eq!(ex.begin_drive(id), DriveStep::Poll);
        assert_eq!(ex.finish_drive(id, Outcome::Completed), Some(Phase::Finished));
        order.push(id);
    }
    assert_eq!(order, ids);
    for &id in &ids {
        assert!(ex.is_finished(id));
    }
}

#[test]
fn requeued_task_goes_behind_the_others() {
    let mut ex = Executor::new(100);
    let mut next = PostedQueue::new();
    let (a, _) = ex.spawn(&mut next);
    let (b, _) = ex.spawn(&mut next);
    for id in [a, b] {
        ex.begin_drive(id);
        ex.wake(id, &mut next);
        ex.finish_drive(id, Outcome::Suspended);
    }
    // Drain: a wakes itself again while it runs, b finishes.
    assert_eq!(ex.next_queued(), Some(a));
    ex.begin_drive(a);
    assert_eq!(ex.wake(a, &mut next), Dispatch::Queued);
    ex.finish_drive(a, Outcome::Suspended);
    assert_eq!(ex.next_queued(), Some(b));
    ex.begin_drive(b);
    ex.finish_drive(b, Outcome::Completed);
    assert_eq!(ex.next_queued(), Some(a));
    assert_eq!(ex.next_queued(), None);
}

#[test]
fn panic_is_contained() {
    let mut ex = Executor::new(100);
    let mut next = PostedQueue::new();
    let (id, _) = ex.spawn(&mut next);
    let (other, _) = ex.spawn(&mut next);
    assert_eq!(ex.begin_drive(id), DriveStep::Poll);
    assert_eq!(ex.finish_drive(id, Outcome::Panicked), Some(Phase::Failed));
    assert!(ex.is_finished(id));
    // No second drive, whatever happens.
    assert_eq!(ex.wake(id, &mut next), Dispatch::Ignored);
    assert_eq!(ex.begin_drive(id), DriveStep::Skip);
    assert_eq!(ex.drop_handle(id), Dispatch::Ignored);
    assert_eq!(ex.finish_drive(id, Outcome::Completed), Some(Phase::Failed));
    assert_eq!(ex.slot(id).unwrap().phase, Phase::Failed);
    // The other task goes on.
    assert_eq!(ex.begin_drive(other), DriveStep::Poll);
    assert_eq!(ex.finish_drive(other, Outcome::Completed), Some(Phase::Finished));
    assert_eq!(RuntimeError.message(), "Error: task panicked");
}

#[test]
fn dropped_handle_aborts_a_suspended_task() {
    let mut ex = Executor::new(100);
    let mut next = PostedQueue::new();
    let (task, d) = spawn(&mut ex, &mut next).unwrap();
    let id = task.id();
    assert_eq!(d, Dispatch::Run(id));
    assert_eq!(ex.begin_drive(id), DriveStep::Poll);
    ex.finish_drive(id, Outcome::Suspended);
    assert!(!task.is_finished(&ex));
    assert_eq!(task.cancel(&mut ex), Dispatch::Run(id));
    assert_eq!(ex.begin_drive(id), DriveStep::Discard);
    assert!(ex.is_finished(id));
    assert_eq!(ex.slot(id).unwrap().phase, Phase::Cancelled);
    assert_eq!(ex.wake(id, &mut next), Dispatch::Ignored);
    assert_eq!(ex.begin_drive(id), DriveStep::Skip);
}

#[test]
fn dropped_handle_aborts_a_running_task_when_it_suspends() {
    let mut ex = Executor::new(100);
    let mut next = PostedQueue::new();
    let (id, _) = ex.spawn(&mut next);
    ex.begin_drive(id);
    assert_eq!(ex.drop_handle(id), Dispatch::Ignored);
    assert_eq!(ex.finish_drive(id, Outcome::Suspended), Some(Phase::Cancelled));
    assert!(ex.is_finished(id));
}

#[test]
fn dropped_handle_of_a_queued_task_is_discarded_at_the_drain() {
    let mut ex = Executor::new(100);
    let mut next = PostedQueue::new();
    let (id, _) = ex.spawn(&mut next);
    ex.begin_drive(id);
    ex.wake(id, &mut next);
    ex.finish_drive(id, Outcome::Suspended);
    assert_eq!(ex.drop_handle(id), Dispatch::Ignored);
    assert_eq!(ex.next_queued(), Some(id));
    assert_eq!(ex.begin_drive(id), DriveStep::Discard);
    assert!(ex.is_finished(id));
}

#[test]
fn detached_task_survives_its_handle() {
    let mut ex = Executor::new(100);
    let mut next = PostedQueue::new();
    let (task, _) = spawn(&mut ex, &mut next).unwrap();
    let id = task.id();
    ex.begin_drive(id);
    ex.finish_drive(id, Outcome::Suspended);
    task.detach(&mut ex);
    assert!(ex.slot(id).unwrap().detached);
    assert_eq!(ex.drop_handle(id), Dispatch::Ignored);
    assert!(!ex.slot(id).unwrap().abort);
    assert_eq!(ex.wake(id, &mut next), Dispatch::Run(id));
    assert_eq!(ex.begin_drive(id), DriveStep::Poll);
    assert_eq!(ex.finish_drive(id, Outcome::Completed), Some(Phase::Finished));
}

#[test]
fn unknown_tasks_are_ignored() {
    let mut ex = Executor::new(100);
    let mut next = PostedQueue::new();
    assert_eq!(ex.wake(3, &mut next), Dispatch::Ignored);
    assert_eq!(ex.begin_drive(3), DriveStep::Skip);
    assert_eq!(ex.finish_drive(3, Outcome::Completed), None);
    assert_eq!(ex.drop_handle(3), Dispatch::Ignored);
    ex.detach(3);
    assert!(!ex.is_finished(3));
    assert_eq!(ex.len(), 0);
}

#[test]
fn wake_from_another_thread_is_never_driven_inline() {
    let mut ex = Executor::new(100);
    let mut next = PostedQueue::new();
    let (id, _) = ex.spawn(&mut next);
    ex.begin_drive(id);
    ex.finish_drive(id, Outcome::Suspended);
    // The task is suspended: a wake of its own thread would drive it now.
    assert_eq!(ex.schedule_remote(id, &mut next), Dispatch::Queued);
    assert_eq!(next.len(), 1);
    assert!(next.contains(100));
    ex.begin_drain();
    assert_eq!(ex.next_queued(), Some(id));
    assert_eq!(ex.schedule_remote(7, &mut next), Dispatch::Ignored);
}
