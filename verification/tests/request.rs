use ngx_runtime::async_::request::{Request, HTTP_INTERNAL_SERVER_ERROR, REQUEST_CTX_SIZE};
use ngx_runtime::async_::spawn::{Dispatch, DriveStep, Executor, Outcome};
use ngx_runtime::host::event::PostedQueue;
use ngx_runtime::host::pool::Pool;
use ngx_runtime::host::status::{NGX_DECLINED, NGX_DONE, NGX_ERROR, NGX_OK};

#[test]
fn disabled_module_declines() {
    let mut pool = Pool::create(256);
    let mut ex = Executor::new(1);
    let mut next = PostedQueue::new();
    let mut r = Request::new(1);
    let (rc, d) = r.access_handler(false, 9, pool.as_mut(), &mut ex, &mut next);
    assert_eq!((rc, d), (NGX_DECLINED, Dispatch::Ignored));
    assert_eq!(r, Request::new(1));
    assert_eq!(ex.len(), 0);
}

#[test]
fn first_call_starts_work_and_holds_the_request() {
    let mut pool = Pool::create(256);
    let mut ex = Executor::new(1);
    let mut next = PostedQueue::new();
    let mut r = Request::new(1);
    let (rc, d) = r.access_handler(true, 9, pool.as_mut(), &mut ex, &mut next);
    assert_eq!(rc, NGX_DONE);
    assert_eq!(d, Dispatch::Run(0));
    assert_eq!(r.count, 2);
    let ctx = r.ctx.unwrap();
    assert_eq!(ctx.task, 0);
    assert!(!ctx.done);
    assert!(ctx.event.posted);
    assert_eq!(ctx.at, 0);
    assert_eq!(REQUEST_CTX_SIZE, 64);
    assert_eq!(pool.as_ref().used(), 88);
    assert_eq!(next.len(), 1);
    assert!(next.contains(9));
    // The host comes back while the work is pending.
    let (rc, d) = r.access_handler(true, 9, pool.as_mut(), &mut ex, &mut next);
    assert_eq!((rc, d), (NGX_DONE, Dispatch::Ignored));
    assert_eq!(r.count, 2);
    assert_eq!(ex.len(), 1);
}

#[test]
fn work_done_releases_the_request() {
    let mut pool = Pool::create(256);
    let mut ex = Executor::new(1);
    let mut next = PostedQueue::new();
    let mut r = Request::new(1);
    r.access_handler(true, 9, pool.as_mut(), &mut ex, &mut next);
    // The event fires before the work is done: it is posted again.
    assert_eq!(next.pop_front(), Some(9));
    assert!(!r.check_async_work_done(&mut next));
    assert_eq!(r.count, 2);
    assert_eq!(next.len(), 1);
    assert_eq!(r.complete(false), NGX_OK);
    assert_eq!(next.pop_front(), Some(9));
    assert!(r.check_async_work_done(&mut next));
    assert_eq!(r.count, 1);
    assert!(next.is_empty());
    let (rc, _) = r.access_handler(true, 9, pool.as_mut(), &mut ex, &mut next);
    assert_eq!(rc, NGX_OK);
}

#[test]
fn no_room_for_the_context_is_an_error() {
    let mut pool = Pool::create(80);
    let mut ex = Executor::new(1);
    let mut next = PostedQueue::new();
    let mut r = Request::new(1);
    let (rc, d) = r.access_handler(true, 9, pool.as_mut(), &mut ex, &mut next);
    assert_eq!((rc, d), (NGX_ERROR, Dispatch::Ignored));
    assert_eq!(r, Request::new(1));
    assert_eq!(pool.as_ref().used(), 0);
    assert_eq!(ex.len(), 0);
    assert!(next.is_empty());
    // A request that cannot count another reference.
    let mut big = Pool::create(256);
    let mut full = Request::new(u16::MAX);
    let (rc, _) = full.access_handler(true, 9, big.as_mut(), &mut ex, &mut next);
    assert_eq!(rc, NGX_ERROR);
    assert!(full.ctx.is_none());
}

#[test]
fn destroyed_request_aborts_pending_work() {
    let mut pool = Pool::create(256);
    let mut ex = Executor::new(1);
    let mut next = PostedQueue::new();
    let mut r = Request::new(1);
    let (_, d) = r.access_handler(true, 9, pool.as_mut(), &mut ex, &mut next);
    assert_eq!(d, Dispatch::Run(0));
    assert_eq!(ex.begin_drive(0), DriveStep::Poll);
    ex.finish_drive(0, Outcome::Suspended);
    assert_eq!(r.destroy(&mut ex, &mut next), Dispatch::Run(0));
    assert!(r.ctx.is_none());
    assert!(!next.contains(9));
    assert_eq!(ex.begin_drive(0), DriveStep::Discard);
    assert!(ex.is_finished(0));
    // Nothing is left to destroy.
    assert_eq!(r.destroy(&mut ex, &mut next), Dispatch::Ignored);
}

#[test]
fn failed_work_still_finalizes_the_request() {
    let mut pool = Pool::create(256);
    let mut ex = Executor::new(1);
    let mut next = PostedQueue::new();
    let mut r = Request::new(1);
    r.access_handler(true, 9, pool.as_mut(), &mut ex, &mut next);
    assert_eq!(r.complete(true), HTTP_INTERNAL_SERVER_ERROR);
    assert_eq!(HTTP_INTERNAL_SERVER_ERROR, 500);
    assert!(r.ctx.unwrap().done);
    assert_eq!(next.pop_front(), Some(9));
    assert!(r.check_async_work_done(&mut next));
    assert_eq!(r.count, 1);
}
