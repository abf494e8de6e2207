use ngx_runtime::async_::sleep::{ngx_add_timer, ngx_del_timer};
use ngx_runtime::host::event::{
    deadline_passed, lazy_delay_applies, Event, PostedQueue, TimerNode, TimerTree,
    NGX_TIMER_LAZY_DELAY,
};

#[test]
fn add_timer_registers_deadline() {
    let mut tree = TimerTree::new();
    let mut ev = Event::new(7);
    ev.add_timer(&mut tree, 1000, 50);
    assert!(ev.timer_set);
    assert_eq!(ev.timer_key, 1050);
    assert_eq!(tree.key(7), Some(1050));
    assert_eq!(tree.len(), 1);
    assert_eq!(NGX_TIMER_LAZY_DELAY, 300);
    let fired = tree.expire(1049);
    assert!(fired.is_empty());
    let fired = tree.expire(1050);
    assert_eq!(fired, vec![TimerNode { key: 1050, id: 7 }]);
    assert_eq!(tree.len(), 0);
}

#[test]
fn rearm_within_lazy_delay_keeps_registration() {
    let mut tree = TimerTree::new();
    let mut ev = Event::new(1);
    ev.add_timer(&mut tree, 10_000, 5_000);
    assert_eq!(tree.key(1), Some(15_000));
    // 299 ms later the new deadline is 299 ms after the old one.
    ev.add_timer(&mut tree, 10_299, 5_000);
    assert_eq!(ev.timer_key, 15_000);
    assert_eq!(tree.key(1), Some(15_000));
    assert_eq!(tree.len(), 1);
    // An earlier deadline within the window is coalesced as well.
    ev.add_timer(&mut tree, 10_000, 4_701);
    assert_eq!(ev.timer_key, 15_000);
    assert_eq!(tree.key(1), Some(15_000));
}

#[test]
fn rearm_outside_lazy_delay_moves_registration() {
    let mut tree = TimerTree::new();
    let mut first = Event::new(1);
    let mut second = Event::new(2);
    first.add_timer(&mut tree, 10_000, 5_000);
    second.add_timer(&mut tree, 10_000, 6_000);
    // Exactly the lazy delay later: no longer coalesced.
    first.add_timer(&mut tree, 10_300, 5_000);
    assert_eq!(first.timer_key, 15_300);
    assert_eq!(tree.key(1), Some(15_300));
    assert_eq!(tree.key(2), Some(16_000));
    assert_eq!(tree.len(), 2);
    // The old node left and the new one stands behind the other event.
    let fired = tree.expire(20_000);
    assert_eq!(
        fired,
        vec![TimerNode { key: 16_000, id: 2 }, TimerNode { key: 15_300, id: 1 }]
    );
    // Earlier by exactly the lazy delay.
    let mut third = Event::new(3);
    third.add_timer(&mut tree, 0, 1_000);
    third.add_timer(&mut tree, 0, 700);
    assert_eq!(third.timer_key, 700);
    assert_eq!(tree.key(3), Some(700));
}

#[test]
fn lazy_delay_boundaries() {
    assert!(lazy_delay_applies(1_000, 1_000));
    assert!(lazy_delay_applies(1_299, 1_000));
    assert!(!lazy_delay_applies(1_300, 1_000));
    assert!(lazy_delay_applies(701, 1_000));
    assert!(!lazy_delay_applies(700, 1_000));
}

#[test]
fn lazy_delay_across_wraparound() {
    // The new key wrapped round, the old one did not: 200 ms apart.
    assert!(lazy_delay_applies(99, u64::MAX - 100));
    assert!(lazy_delay_applies(u64::MAX - 100, 99));
    assert!(!lazy_delay_applies(199, u64::MAX - 100));
    assert!(lazy_delay_applies(198, u64::MAX - 100));
}

#[test]
fn timer_key_wraps() {
    let mut tree = TimerTree::new();
    let mut ev = Event::new(9);
    ev.add_timer(&mut tree, u64::MAX - 9, 20);
    assert_eq!(ev.timer_key, 10);
    // Not due just before the clock wraps, due once it passed the key.
    assert!(!deadline_passed(10, u64::MAX));
    assert!(!deadline_passed(10, 9));
    assert!(deadline_passed(10, 10));
    assert!(deadline_passed(10, 11));
    assert!(tree.expire(u64::MAX).is_empty());
    assert_eq!(tree.expire(10).len(), 1);
}

#[test]
fn del_timer_removes_registration() {
    let mut tree = TimerTree::new();
    let mut a = Event::new(1);
    let mut b = Event::new(2);
    a.add_timer(&mut tree, 0, 10);
    b.add_timer(&mut tree, 0, 20);
    a.del_timer(&mut tree);
    assert!(!a.timer_set);
    assert!(!tree.contains(1));
    assert_eq!(tree.key(1), None);
    assert_eq!(tree.key(2), Some(20));
    assert_eq!(tree.len(), 1);
    // Deleting again changes nothing.
    a.del_timer(&mut tree);
    assert_eq!(tree.len(), 1);
}

#[test]
fn free_timer_functions_agree_with_methods() {
    let mut tree = TimerTree::new();
    let mut ev = Event::new(4);
    ngx_add_timer(&mut ev, &mut tree, 100, 400);
    assert_eq!(ev.timer_key, 500);
    assert!(tree.contains(4));
    ngx_add_timer(&mut ev, &mut tree, 100, 450);
    assert_eq!(ev.timer_key, 500);
    ngx_del_timer(&mut ev, &mut tree);
    assert!(!ev.timer_set);
    assert!(!tree.contains(4));
}

#[test]
fn expire_fires_only_due_timers_in_registration_order() {
    let mut tree = TimerTree::new();
    let mut a = Event::new(1);
    let mut b = Event::new(2);
    let mut c = Event::new(3);
    a.add_timer(&mut tree, 0, 30);
    b.add_timer(&mut tree, 0, 10);
    c.add_timer(&mut tree, 0, 20);
    let fired = tree.expire(20);
    assert_eq!(
        fired,
        vec![TimerNode { key: 10, id: 2 }, TimerNode { key: 20, id: 3 }]
    );
    assert_eq!(tree.len(), 1);
    assert!(tree.contains(1));
    b.expire();
    assert!(b.timedout);
    assert!(!b.timer_set);
}

#[test]
fn post_event_is_idempotent() {
    let mut queue = PostedQueue::new();
    let mut a = Event::new(1);
    let mut b = Event::new(2);
    a.post_event(&mut queue);
    b.post_event(&mut queue);
    a.post_event(&mut queue);
    assert!(a.posted);
    assert_eq!(queue.len(), 2);
    assert_eq!(queue.pop_front(), Some(1));
    assert_eq!(queue.pop_front(), Some(2));
    assert_eq!(queue.pop_front(), None);
    assert!(queue.is_empty());
}

#[test]
fn delete_posted_event_removes_only_that_event() {
    let mut queue = PostedQueue::new();
    let mut a = Event::new(1);
    let mut b = Event::new(2);
    let mut c = Event::new(3);
    a.post_event(&mut queue);
    b.post_event(&mut queue);
    c.post_event(&mut queue);
    b.delete_posted_event(&mut queue);
    assert!(!b.posted);
    assert!(!queue.contains(2));
    assert_eq!(queue.len(), 2);
    // Not posted: nothing happens.
    b.delete_posted_event(&mut queue);
    assert_eq!(queue.len(), 2);
    assert_eq!(queue.pop_front(), Some(1));
    assert_eq!(queue.pop_front(), Some(3));
}

#[test]
fn posts_for_the_next_iteration_wait_for_it() {
    let mut current = PostedQueue::new();
    let mut next = PostedQueue::new();
    let mut a = Event::new(1);
    let mut b = Event::new(2);
    a.post_event(&mut current);
    // While the host drains `current`, a handler posts to `next`.
    assert_eq!(current.pop_front(), Some(1));
    b.post_event(&mut next);
    assert_eq!(current.pop_front(), None);
    // The next iteration begins.
    current.move_from(&mut next);
    assert!(next.is_empty());
    assert_eq!(current.pop_front(), Some(2));
}

#[test]
fn release_leaves_no_membership() {
    let mut tree = TimerTree::new();
    let mut queue = PostedQueue::new();
    let mut ev = Event::new(5);
    let mut other = Event::new(6);
    ev.add_timer(&mut tree, 0, 100);
    ev.post_event(&mut queue);
    other.add_timer(&mut tree, 0, 100);
    other.post_event(&mut queue);
    ev.release(&mut tree, &mut queue);
    assert!(!ev.timer_set);
    assert!(!ev.posted);
    assert!(!tree.contains(5));
    assert!(!queue.contains(5));
    assert!(tree.contains(6));
    assert!(queue.contains(6));
}

#[test]
fn handle_read_and_write_map_the_status() {
    let ev = Event::default();
    assert_eq!(ev.ident(), 0);
    assert_eq!(ev.handle_read(0), Ok(()));
    assert_eq!(ev.handle_read(-1), Err(-1));
    assert_eq!(ev.handle_write(0), Ok(()));
    assert_eq!(ev.handle_write(-2), Err(-2));
}
