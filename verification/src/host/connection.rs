//! A connection of the host: a socket with a read event and a write event.

use crate::host::event::{
    has_id, lemma_unposted, lemma_without_id, unposted, without_id, Event, PostedQueue, TimerNode,
    TimerTree,
};
use vstd::prelude::*;

verus! {

/// The level at which the host logs errors of a connection.
#[derive(Clone, Copy, Debug, PartialEq, Eq, Structural)]
pub enum ConnectionLogError {
    Alert,
    Error,
    Info,
    IgnoreConnectionReset,
    IgnoreInvalidArgument,
    IgnoreMessageTooLong,
}

impl ConnectionLogError {
    /// The host's number for the level.
    pub fn code(&self) -> (c: u32)
        ensures
            c == match *self {
                ConnectionLogError::Alert => 0u32,
                ConnectionLogError::Error => 1u32,
                ConnectionLogError::Info => 2u32,
                ConnectionLogError::IgnoreConnectionReset => 3u32,
                ConnectionLogError::IgnoreInvalidArgument => 4u32,
                ConnectionLogError::IgnoreMessageTooLong => 5u32,
            },
    {
        match self {
            ConnectionLogError::Alert => 0,
            ConnectionLogError::Error => 1,
            ConnectionLogError::Info => 2,
            ConnectionLogError::IgnoreConnectionReset => 3,
            ConnectionLogError::IgnoreInvalidArgument => 4,
            ConnectionLogError::IgnoreMessageTooLong => 5,
        }
    }
}

/// What the host learned when it asked a socket for its pending error.
#[derive(Clone, Copy, Debug, PartialEq, Eq, Structural)]
pub struct SocketProbe {
    /// What the query returned: -1 where the query itself failed.
    pub rc: i32,
    /// The pending error that the query stored, 0 for none.
    pub so_error: i32,
    /// The error of the query itself, which counts where `rc` is -1.
    pub errno: i32,
}

/// The error that a probe reports, 0 for none: the error of the query where
/// the query failed, and else the pending error of the socket.
pub open spec fn probe_error(probe: SocketProbe) -> i32 {
    if probe.rc == -1 {
        probe.errno
    } else {
        probe.so_error
    }
}

/// The descriptor of a connection that is closed.
pub const CLOSED_FD: i32 = -1;

/// A connection of the host.
#[derive(Clone, Copy, Debug, PartialEq, Eq, Structural)]
pub struct Connection {
    /// The socket, or [`CLOSED_FD`].
    pub fd: i32,
    /// The event by which the host reports that the socket can be read.
    pub read: Event,
    /// The event by which the host reports that the socket can be written.
    pub write: Event,
    /// The level at which errors of the connection are logged.
    pub log_error: ConnectionLogError,
}

impl Connection {
    /// An open connection on socket `fd`, whose events are `read_data` and
    /// `write_data` to the host.
    pub fn new(fd: i32, read_data: usize, write_data: usize) -> (c: Self)
        ensures
            c == (Connection {
                fd,
                read: Event::spec_new(read_data),
                write: Event::spec_new(write_data),
                log_error: ConnectionLogError::Alert,
            }),
    {
        Connection {
            fd,
            read: Event::new(read_data),
            write: Event::new(write_data),
            log_error: ConnectionLogError::Alert,
        }
    }

    /// Whether the connection is closed.
    pub fn is_closed(&self) -> (r: bool)
        ensures
            r == (self.fd == CLOSED_FD),
    {
        self.fd == CLOSED_FD
    }

    /// The error by which a connect attempt on this connection failed, in
    /// the words of the contract of [`Connection::test_connect`].
    pub open spec fn connect_error(&self, use_kqueue: bool, probe: SocketProbe) -> i32 {
        if use_kqueue {
            if self.write.pending_eof {
                self.write.kq_errno
            } else if self.read.pending_eof {
                self.read.kq_errno
            } else {
                0
            }
        } else {
            probe_error(probe)
        }
    }

    /// Whether a connect attempt on this connection failed, in the words of
    /// the contract of [`Connection::test_connect`].
    pub open spec fn connect_failed(&self, use_kqueue: bool, probe: SocketProbe) -> bool {
        if use_kqueue {
            self.write.pending_eof || self.read.pending_eof
        } else {
            probe_error(probe) != 0
        }
    }

    /// Checks the result of a connect attempt.
    ///
    /// With a kernel queue the host has the result on the events: the
    /// attempt failed if either event saw the end of the stream, with the
    /// error of the write event if that saw it, else of the read event.
    /// Without one the result is `probe`, what the socket answered when
    /// asked for its pending error: the attempt failed if the probe reports
    /// an error.
    pub fn test_connect(&self, use_kqueue: bool, probe: SocketProbe) -> (r: Result<(), i32>)
        ensures
            self.connect_failed(use_kqueue, probe) ==> r == Err::<(), i32>(
                self.connect_error(use_kqueue, probe),
            ),
            !self.connect_failed(use_kqueue, probe) ==> r == Ok::<(), i32>(()),
    {
        if use_kqueue {
            if self.write.pending_eof || self.read.pending_eof {
                let err = if self.write.pending_eof {
                    self.write.kq_errno
                } else {
                    self.read.kq_errno
                };
                return Err(err);
            } else {
                return Ok(());
            }
        }
        let mut err: i32 = probe.so_error;
        if probe.rc == -1 {
            err = probe.errno;
        }
        if err != 0 {
            Err(err)
        } else {
            Ok(())
        }
    }

    /// Sets the level at which errors of the connection are logged.
    pub fn set_log_error(&mut self, e: ConnectionLogError)
        ensures
            *final(self) == (Connection { log_error: e, ..*old(self) }),
    {
        self.log_error = e;
    }

    /// The outcome of shutting the socket down, given what the system call
    /// returned and the error it left: an error exactly where it returned
    /// -1.
    pub fn shutdown(&self, rc: i32, errno: i32) -> (r: Result<(), i32>)
        ensures
            rc == -1 ==> r == Err::<(), i32>(errno),
            rc != -1 ==> r == Ok::<(), i32>(()),
    {
        if rc == -1 {
            return Err(errno);
        }
        Ok(())
    }

    /// Closes the connection: both events leave the timer tree and the
    /// posted-event queue, and the socket is gone.
    pub fn close(&mut self, tree: &mut TimerTree, queue: &mut PostedQueue)
        ensures
            *final(self) == (Connection {
                fd: CLOSED_FD,
                read: Event { timer_set: false, posted: false, ..old(self).read },
                write: Event { timer_set: false, posted: false, ..old(self).write },
                ..*old(self)
            }),
            final(tree)@ == closed_tree(*old(self), old(tree)@),
            final(queue)@ == closed_queue(*old(self), old(queue)@),
    {
        self.read.release(tree, queue);
        self.write.release(tree, queue);
        self.fd = CLOSED_FD;
    }
}

/// The timer tree after connection `c` was closed: without the nodes of
/// those of its events that were registered.
pub open spec fn closed_tree(c: Connection, tree: Seq<TimerNode>) -> Seq<TimerNode> {
    let t = if c.read.timer_set {
        without_id(tree, c.read.data)
    } else {
        tree
    };
    if c.write.timer_set {
        without_id(t, c.write.data)
    } else {
        t
    }
}

/// The posted-event queue after connection `c` was closed: without those
/// of its events that were posted.
pub open spec fn closed_queue(c: Connection, queue: Seq<usize>) -> Seq<usize> {
    let q = if c.read.posted {
        unposted(queue, c.read.data)
    } else {
        queue
    };
    if c.write.posted {
        unposted(q, c.write.data)
    } else {
        q
    }
}

/// Closing a connection releases what it held: where its events agreed
/// with the timer tree and the posted-event queue about their registration,
/// neither event is in the tree or in the queue afterwards.
pub proof fn lemma_close_releases(c: Connection, tree: Seq<TimerNode>, queue: Seq<usize>)
    requires
        c.read.timer_set == has_id(tree, c.read.data),
        c.write.timer_set == has_id(tree, c.write.data),
        c.read.posted == queue.contains(c.read.data),
        c.write.posted == queue.contains(c.write.data),
    ensures
        !has_id(closed_tree(c, tree), c.read.data),
        !has_id(closed_tree(c, tree), c.write.data),
        !closed_queue(c, queue).contains(c.read.data),
        !closed_queue(c, queue).contains(c.write.data),
{
    let r = c.read.data;
    let w = c.write.data;
    let t = if c.read.timer_set {
        without_id(tree, r)
    } else {
        tree
    };
    lemma_without_id(tree, r, w);
    lemma_without_id(t, w, r);
    let q = if c.read.posted {
        unposted(queue, r)
    } else {
        queue
    };
    lemma_unposted(queue, r, w);
    lemma_unposted(q, w, r);
}

} // verus!
