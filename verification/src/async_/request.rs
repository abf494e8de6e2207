//! The bridge between a request of the host and the asynchronous work done
//! for it. While work is outstanding the request counts one reference
//! more, so that the host does not finalize it; when the host destroys the
//! request, work that is still pending is aborted.

use crate::async_::spawn::{Dispatch, Executor, TaskId};
use crate::host::event::{unposted, Event, PostedQueue};
use crate::host::pool::{PoolRef, PoolState};
use crate::host::status::{NGX_DECLINED, NGX_DONE, NGX_ERROR, NGX_OK};
use vstd::prelude::*;

verus! {

/// The status with which a request is finalized whose work failed.
pub const HTTP_INTERNAL_SERVER_ERROR: isize = 500;

/// The bytes that a request context takes in the request's pool.
pub const REQUEST_CTX_SIZE: usize = 64;

/// What the bridge keeps for a request with asynchronous work.
#[derive(Clone, Copy, Debug, PartialEq, Eq, Structural)]
pub struct RequestCtx {
    /// The task that does the work.
    pub task: TaskId,
    /// Whether the work is done.
    pub done: bool,
    /// The event by which the bridge looks again whether the work is done.
    pub event: Event,
    /// Where the context lies in the request's pool.
    pub at: usize,
}

/// A request of the host, as far as the bridge is concerned.
#[derive(Clone, Copy, Debug, PartialEq, Eq, Structural)]
pub struct Request {
    /// The number of references that keep the host from finalizing the
    /// request.
    pub count: u16,
    /// The context of the asynchronous work, once there is any.
    pub ctx: Option<RequestCtx>,
}

impl Request {
    /// Whether the first call of the handler can start asynchronous work:
    /// the request can count one reference more, and the context and the
    /// record of its cleanup handler fit into the pool.
    pub open spec fn can_start(self, pool: PoolState) -> bool {
        self.count < u16::MAX && pool.fits_with_cleanup(REQUEST_CTX_SIZE)
    }

    /// The status that the handler returns to the host: declined where the
    /// module is not enabled; for a request with a context, success once the
    /// work is done and "done for now" before; for a request without one,
    /// "done for now" where the work could be started and an error where it
    /// could not.
    pub open spec fn handler_status(self, enabled: bool, pool: PoolState) -> isize {
        if !enabled {
            NGX_DECLINED
        } else {
            match self.ctx {
                Some(ctx) => if ctx.done {
                    NGX_OK
                } else {
                    NGX_DONE
                },
                None => if self.can_start(pool) {
                    NGX_DONE
                } else {
                    NGX_ERROR
                },
            }
        }
    }

    /// Whether this call of the handler starts the asynchronous work.
    pub open spec fn starts(self, enabled: bool, pool: PoolState) -> bool {
        enabled && self.ctx is None && self.can_start(pool)
    }

    /// A request for which no asynchronous work was started, with `count`
    /// references.
    pub fn new(count: u16) -> (r: Self)
        ensures
            r == (Request { count, ctx: None }),
    {
        Request { count, ctx: None }
    }

    /// The handler of the request, which the host calls when the request
    /// comes to the module's phase and again whenever it resumes the phase.
    ///
    /// On the first call for a request the handler allocates the context in
    /// the request's pool, posts the context's event (`event_data` to the
    /// host) to `next`, counts one reference more on the request, and
    /// spawns the task, which the caller is to drive at once.
    pub fn access_handler(
        &mut self,
        enabled: bool,
        event_data: usize,
        pool: &mut PoolRef,
        executor: &mut Executor,
        next: &mut PostedQueue,
    ) -> (r: (isize, Dispatch))
        requires
            old(pool).wf(),
            old(executor)@.wf(),
        ensures
            r.0 == old(self).handler_status(enabled, old(pool)@),
            final(pool).wf(),
            final(executor)@.wf(),
            !old(self).starts(enabled, old(pool)@) ==> {
                &&& r.1 == Dispatch::Ignored
                &&& final(self).ctx == old(self).ctx
                &&& final(self).count == old(self).count
                &&& final(executor)@ == old(executor)@
                &&& final(next)@ == old(next)@
            },
            old(self).starts(enabled, old(pool)@) ==> {
                &&& r.1 == Dispatch::Run(old(executor)@.slots.len() as usize)
                &&& final(self).count == old(self).count + 1
                &&& final(self).ctx == Some(
                    RequestCtx {
                        task: old(executor)@.slots.len() as usize,
                        done: false,
                        event: Event { posted: true, ..Event::spec_new(event_data) },
                        at: old(pool)@.start(true) as usize,
                    },
                )
                &&& final(executor)@ == old(executor)@.spawn()
                &&& final(next)@ == old(next)@.push(event_data)
            },
    {
        if !enabled {
            return (NGX_DECLINED, Dispatch::Ignored);
        }
        match self.ctx {
            Some(ctx) => {
                if ctx.done {
                    (NGX_OK, Dispatch::Ignored)
                } else {
                    (NGX_DONE, Dispatch::Ignored)
                }
            },
            None => {
                if self.count == u16::MAX {
                    return (NGX_ERROR, Dispatch::Ignored);
                }
                if !pool.fits_with_cleanup(REQUEST_CTX_SIZE) {
                    return (NGX_ERROR, Dispatch::Ignored);
                }
                let at = match pool.allocate(REQUEST_CTX_SIZE) {
                    Some(at) => at,
                    None => {
                        return (NGX_ERROR, Dispatch::Ignored);
                    },
                };
                let mut event = Event::new(event_data);
                event.post_event(next);
                self.count = self.count + 1;
                let (task, d) = executor.spawn(next);
                self.ctx = Some(RequestCtx { task, done: false, event, at });
                (NGX_DONE, d)
            },
        }
    }

    /// Records that the asynchronous work of the request has ended, and
    /// hands out the status with which the request is to be finalized:
    /// success where the work succeeded, and the status of an internal
    /// server error where it failed. Whatever the end, there is a status,
    /// so that no request stays pending for ever. The reference that the
    /// work held is given up when the bridge next looks: see
    /// [`Request::check_async_work_done`].
    pub fn complete(&mut self, failed: bool) -> (status: isize)
        ensures
            status == if failed {
                HTTP_INTERNAL_SERVER_ERROR
            } else {
                NGX_OK
            },
            final(self).count == old(self).count,
            old(self).ctx is None ==> final(self).ctx is None,
            old(self).ctx matches Some(ctx) ==> final(self).ctx == Some(
                RequestCtx { done: true, ..ctx },
            ),
    {
        match self.ctx {
            Some(ctx) => {
                self.ctx = Some(RequestCtx { done: true, ..ctx });
            },
            None => {},
        }
        if failed {
            HTTP_INTERNAL_SERVER_ERROR
        } else {
            NGX_OK
        }
    }

    /// Whether the host is to go on with the request: there is a context,
    /// its work is done, and the request holds the reference of the work.
    pub open spec fn resumes(self) -> bool {
        self.ctx matches Some(ctx) && ctx.done && self.count > 0
    }

    /// The handler of the context's event, which the host calls after it
    /// took the event from its queue. Where the work is done, the
    /// reference that it held is given up and the host is to go on with the
    /// request (the result is `true`); where it is not, the event is posted
    /// to `next` again.
    pub fn check_async_work_done(&mut self, next: &mut PostedQueue) -> (r: bool)
        ensures
            r == old(self).resumes(),
            old(self).ctx is None ==> *final(self) == *old(self) && final(next)@ == old(next)@,
            old(self).ctx matches Some(ctx) ==> {
                &&& ctx.done ==> {
                    &&& final(self).ctx == Some(
                        RequestCtx { event: Event { posted: false, ..ctx.event }, ..ctx },
                    )
                    &&& final(self).count == if old(self).count > 0 {
                        old(self).count - 1
                    } else {
                        0
                    }
                    &&& final(next)@ == old(next)@
                }
                &&& !ctx.done ==> {
                    &&& final(self).ctx == Some(
                        RequestCtx { event: Event { posted: true, ..ctx.event }, ..ctx },
                    )
                    &&& final(self).count == old(self).count
                    &&& final(next)@ == old(next)@.push(ctx.event.data)
                }
            },
    {
        match self.ctx {
            None => false,
            Some(ctx) => {
                let mut event = ctx.event;
                // The host took the event out of its queue before the call.
                event.posted = false;
                if ctx.done {
                    self.ctx = Some(RequestCtx { event, ..ctx });
                    if self.count > 0 {
                        self.count = self.count - 1;
                        true
                    } else {
                        false
                    }
                } else {
                    event.post_event(next);
                    self.ctx = Some(RequestCtx { event, ..ctx });
                    false
                }
            },
        }
    }

    /// Ends the context when the host destroys the request: the handle of
    /// the task is dropped, which aborts a task that is still pending, and
    /// the context's event leaves the posted-event queue.
    pub fn destroy(&mut self, executor: &mut Executor, queue: &mut PostedQueue) -> (d: Dispatch)
        requires
            old(executor)@.wf(),
        ensures
            final(self).ctx is None,
            final(self).count == old(self).count,
            final(executor)@.wf(),
            old(self).ctx is None ==> {
                &&& d == Dispatch::Ignored
                &&& final(executor)@ == old(executor)@
                &&& final(queue)@ == old(queue)@
            },
            old(self).ctx matches Some(ctx) ==> {
                &&& d == old(executor)@.drop_dispatch(ctx.task)
                &&& final(executor)@ == old(executor)@.drop_handle(ctx.task)
                &&& final(queue)@ == if ctx.event.posted {
                    unposted(old(queue)@, ctx.event.data)
                } else {
                    old(queue)@
                }
            },
    {
        match self.ctx {
            None => Dispatch::Ignored,
            Some(ctx) => {
                let d = executor.drop_handle(ctx.task);
                let mut event = ctx.event;
                event.delete_posted_event(queue);
                self.ctx = None;
                d
            },
        }
    }
}

} // verus!
