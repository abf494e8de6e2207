use ngx_runtime::async_::poll::Poll;
use ngx_runtime::async_::sleep::{sleep, Timer, NGX_TIMER_DURATION_MAX};
use ngx_runtime::host::event::TimerTree;

#[test]
fn timer_arms_once_and_resolves_after_expiry() {
    let mut tree = TimerTree::new();
    let mut timer = Timer::new(11);
    assert!(timer.event.cancelable);
    assert_eq!(timer.poll_sleep(&mut tree, 100, 50, 1), Poll::Pending);
    assert_eq!(timer.waker, Some(1));
    assert_eq!(tree.key(11), Some(150));
    // Polled again by another task while armed: the waker is replaced.
    assert_eq!(timer.poll_sleep(&mut tree, 120, 50, 2), Poll::Pending);
    assert_eq!(timer.waker, Some(2));
    assert_eq!(tree.key(11), Some(150));
    assert_eq!(tree.len(), 1);
    // The host fires the timer.
    assert_eq!(tree.expire(150).len(), 1);
    timer.event.expire();
    assert_eq!(timer.timer_handler(), Some(2));
    assert_eq!(timer.timer_handler(), None);
    assert_eq!(timer.poll_sleep(&mut tree, 150, 50, 2), Poll::Ready(()));
}

#[test]
fn timer_cancel_deregisters() {
    let mut tree = TimerTree::new();
    let mut timer = Timer::new(11);
    timer.poll_sleep(&mut tree, 0, 1_000, 1);
    assert!(tree.contains(11));
    timer.cancel(&mut tree);
    assert!(!tree.contains(11));
    assert!(!timer.event.timer_set);
    // Cancelling a timer that is not armed does nothing.
    timer.cancel(&mut tree);
    assert_eq!(tree.len(), 0);
}

#[test]
fn short_sleep_takes_one_cycle() {
    let mut tree = TimerTree::new();
    let mut s = sleep(50, 3);
    assert_eq!(s.remaining(), 50);
    assert!(!s.timer().event.timer_set);
    assert_eq!(s.poll(&mut tree, 1_000, 8), Poll::Pending);
    assert_eq!(s.remaining(), 0);
    assert_eq!(tree.key(3), Some(1_050));
    assert_eq!(s.poll(&mut tree, 1_020, 8), Poll::Pending);
    assert_eq!(tree.key(3), Some(1_050));
    assert!(tree.expire(1_049).is_empty());
    assert_eq!(tree.expire(1_050).len(), 1);
    assert_eq!(s.fire(), Some(8));
    assert_eq!(s.poll(&mut tree, 1_050, 8), Poll::Ready(()));
    assert_eq!(s.poll(&mut tree, 1_051, 8), Poll::Ready(()));
    assert_eq!(tree.len(), 0);
}

#[test]
fn zero_sleep_suspends_once() {
    let mut tree = TimerTree::new();
    let mut s = sleep(0, 3);
    assert_eq!(s.poll(&mut tree, 77, 1), Poll::Pending);
    assert_eq!(tree.key(3), Some(77));
    assert_eq!(tree.expire(77).len(), 1);
    assert_eq!(s.fire(), Some(1));
    assert_eq!(s.poll(&mut tree, 77, 1), Poll::Ready(()));
}

#[test]
fn long_sleep_is_armed_in_several_cycles() {
    let max = NGX_TIMER_DURATION_MAX as u128;
    assert_eq!(NGX_TIMER_DURATION_MAX, i64::MAX as u64);
    let mut tree = TimerTree::new();
    let mut s = sleep(2 * max + 5, 3);
    let mut now: u64 = 1_000;
    // First cycle: the longest arming.
    assert_eq!(s.poll(&mut tree, now, 1), Poll::Pending);
    assert_eq!(s.remaining(), max + 5);
    assert_eq!(tree.key(3), Some(now.wrapping_add(NGX_TIMER_DURATION_MAX)));
    now = now.wrapping_add(NGX_TIMER_DURATION_MAX);
    assert_eq!(tree.expire(now).len(), 1);
    assert_eq!(s.fire(), Some(1));
    // Second cycle: expired, but not done.
    assert_eq!(s.poll(&mut tree, now, 1), Poll::Pending);
    assert!(!s.timer().event.timedout);
    assert_eq!(s.remaining(), 5);
    assert_eq!(tree.key(3), Some(now.wrapping_add(NGX_TIMER_DURATION_MAX)));
    now = now.wrapping_add(NGX_TIMER_DURATION_MAX);
    assert_eq!(tree.expire(now).len(), 1);
    assert_eq!(s.fire(), Some(1));
    // Third cycle: the rest.
    assert_eq!(s.poll(&mut tree, now, 1), Poll::Pending);
    assert_eq!(s.remaining(), 0);
    assert_eq!(tree.key(3), Some(now.wrapping_add(5)));
    assert!(tree.expire(now.wrapping_add(4)).is_empty());
    now = now.wrapping_add(5);
    assert_eq!(tree.expire(now).len(), 1);
    assert_eq!(s.fire(), Some(1));
    assert_eq!(s.poll(&mut tree, now, 1), Poll::Ready(()));
}

#[test]
fn sleep_of_exactly_the_longest_arming_takes_one_cycle() {
    let mut tree = TimerTree::new();
    let mut s = sleep(NGX_TIMER_DURATION_MAX as u128, 3);
    assert_eq!(s.poll(&mut tree, 0, 1), Poll::Pending);
    assert_eq!(s.remaining(), 0);
    assert_eq!(tree.expire(NGX_TIMER_DURATION_MAX).len(), 1);
    s.fire();
    assert_eq!(s.poll(&mut tree, NGX_TIMER_DURATION_MAX, 1), Poll::Ready(()));
}

#[test]
fn cancelled_sleep_leaves_the_tree() {
    let mut tree = TimerTree::new();
    let mut s = sleep(500, 3);
    s.poll(&mut tree, 0, 1);
    assert!(tree.contains(3));
    s.cancel(&mut tree);
    assert!(!tree.contains(3));
    assert!(tree.expire(10_000).is_empty());
}
