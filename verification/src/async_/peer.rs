//! The peer connection: an outbound connection to a backend as a state
//! machine that is polled.
//!
//! The host does the work on the socket. Each operation here is split
//! where the host comes in: one function says whether the host is to be
//! asked at all, and one takes what the host answered and decides.

use crate::async_::poll::Poll;
use crate::async_::spawn::TaskId;
use crate::host::connection::{closed_queue, closed_tree, Connection, SocketProbe};
use crate::host::event::{
    lemma_without_id, timer_key, without_id, Event, PostedQueue, TimerNode, TimerTree,
};
use crate::host::status::{NGX_AGAIN, NGX_BUSY, NGX_DECLINED, NGX_ERROR, NGX_OK};
use vstd::prelude::*;

verus! {

/// The milliseconds after which a connect attempt that is still in
/// progress counts as timed out.
pub const CONNECT_TIMEOUT: u64 = 5000;

/// The milliseconds after which a read that the host still waits for
/// counts as timed out.
pub const READ_TIMEOUT: u64 = 5000;

/// Where a peer connection is in its life.
#[derive(Clone, Copy, Debug, PartialEq, Eq, Structural)]
pub enum PeerPhase {
    /// No connect attempt was made.
    Unconnected,
    /// The host works on the connect attempt.
    Connecting,
    /// The connection is established.
    Connected,
    /// The connection was closed.
    Closed,
    /// The connect attempt or the connection failed.
    Failed,
}

/// Why an operation on a peer connection failed.
#[derive(Clone, Copy, Debug, PartialEq, Eq, Structural)]
pub enum PeerError {
    /// The target has no resolved address.
    Configuration,
    /// The host refused the connect attempt at once, with this status:
    /// error, busy or declined.
    Refused(isize),
    /// The timer of the operation expired.
    TimedOut,
    /// The system reported this error.
    Io(i32),
    /// The host could not keep track of the socket's readiness, or the
    /// socket took no data.
    UnexpectedEof,
    /// The connection is not established.
    NotConnected,
}

/// Which handler the events of the connection carry.
#[derive(Clone, Copy, Debug, PartialEq, Eq, Structural)]
pub enum PeerHandler {
    /// None: the events wake nobody.
    Unset,
    /// Both events report the end of the connect attempt.
    Connect,
    /// The read event reports readable data, the write event room to
    /// write.
    Io,
}

/// What the caller of `poll_connect` does next.
#[derive(Debug)]
pub enum ConnectStep {
    /// Nothing: this is the result of the poll.
    Done(Poll<Result<(), PeerError>>),
    /// Ask the host to begin connecting to the address with this index,
    /// and hand its answer to `connect`.
    Connect(usize),
}

/// A peer connection. At most one task waits in each direction; a poll
/// overwrites the task that waited.
#[derive(Clone, Copy, Debug)]
pub struct PeerConnection {
    pub phase: PeerPhase,
    /// The connection of the host, from the connect attempt on until it is
    /// closed.
    pub connection: Option<Connection>,
    pub handler: PeerHandler,
    /// The task that waits for the connect attempt to end.
    pub cev: Option<TaskId>,
    /// The task that waits for data to read.
    pub rev: Option<TaskId>,
    /// The task that waits for room to write.
    pub wev: Option<TaskId>,
}

/// Whether `rc` is one of the answers that the host gives to a connect
/// attempt.
pub open spec fn is_connect_status(rc: isize) -> bool {
    rc == NGX_OK || rc == NGX_AGAIN || is_refusal(rc)
}

/// Whether `rc` is one of the answers by which the host refuses a connect
/// attempt at once.
pub open spec fn is_refusal(rc: isize) -> bool {
    rc == NGX_ERROR || rc == NGX_BUSY || rc == NGX_DECLINED
}

impl PeerConnection {
    /// A peer connection on which nothing was attempted.
    pub open spec fn spec_new() -> PeerConnection {
        PeerConnection {
            phase: PeerPhase::Unconnected,
            connection: None,
            handler: PeerHandler::Unset,
            cev: None,
            rev: None,
            wev: None,
        }
    }

    /// A peer connection on which nothing was attempted.
    pub fn new() -> (p: Self)
        ensures
            p == PeerConnection::spec_new(),
    {
        PeerConnection {
            phase: PeerPhase::Unconnected,
            connection: None,
            handler: PeerHandler::Unset,
            cev: None,
            rev: None,
            wev: None,
        }
    }

    /// Whether either event of the connection has timed out.
    pub open spec fn timed_out(c: Connection) -> bool {
        c.read.timedout || c.write.timedout
    }

    /// What a poll for the end of the connect attempt finds.
    pub open spec fn poll_connect_step(
        self,
        naddrs: usize,
        use_kqueue: bool,
        probe: SocketProbe,
    ) -> ConnectStep {
        match self.connection {
            Some(c) => if Self::timed_out(c) {
                ConnectStep::Done(Poll::Ready(Err(PeerError::TimedOut)))
            } else if c.connect_failed(use_kqueue, probe) {
                ConnectStep::Done(
                    Poll::Ready(Err(PeerError::Io(c.connect_error(use_kqueue, probe)))),
                )
            } else {
                ConnectStep::Done(Poll::Ready(Ok(())))
            },
            None => if naddrs == 0 {
                ConnectStep::Done(Poll::Ready(Err(PeerError::Configuration)))
            } else {
                ConnectStep::Connect(0)
            },
        }
    }

    /// The peer connection after a poll for the end of the connect attempt.
    pub open spec fn after_poll_connect(
        self,
        use_kqueue: bool,
        probe: SocketProbe,
    ) -> PeerConnection {
        match self.connection {
            Some(c) => if Self::timed_out(c) {
                PeerConnection { phase: PeerPhase::Failed, connection: None, ..self }
            } else if c.connect_failed(use_kqueue, probe) {
                PeerConnection { phase: PeerPhase::Failed, ..self }
            } else {
                PeerConnection { phase: PeerPhase::Connected, handler: PeerHandler::Io, ..self }
            },
            None => self,
        }
    }

    /// Whether a poll for the end of the connect attempt closes the
    /// connection: it is there and one of its events has timed out.
    pub open spec fn poll_connect_closes(self) -> bool {
        self.connection matches Some(c) && Self::timed_out(c)
    }

    /// Polls for the end of the connect attempt.
    ///
    /// With a connection of the host: a connection with a timed-out event
    /// is closed and the poll fails with a timeout; one whose connect
    /// attempt failed, going by the events and by `probe`, fails with that
    /// error; any other is established, and its events get the handlers for
    /// reading and writing.
    ///
    /// Without one: a target without addresses (`naddrs` is 0) is a
    /// configuration error; else the caller is told to have the host
    /// connect to the first address.
    pub fn poll_connect(
        &mut self,
        naddrs: usize,
        use_kqueue: bool,
        probe: SocketProbe,
        tree: &mut TimerTree,
        queue: &mut PostedQueue,
    ) -> (step: ConnectStep)
        ensures
            step == old(self).poll_connect_step(naddrs, use_kqueue, probe),
            *final(self) == old(self).after_poll_connect(use_kqueue, probe),
            old(self).poll_connect_closes() ==> {
                &&& final(tree)@ == closed_tree(old(self).connection->0, old(tree)@)
                &&& final(queue)@ == closed_queue(old(self).connection->0, old(queue)@)
            },
            !old(self).poll_connect_closes() ==> final(tree)@ == old(tree)@ && final(queue)@
                == old(queue)@,
    {
        match self.connection {
            Some(c) => {
                if c.read.timedout || c.write.timedout {
                    let mut c = c;
                    c.close(tree, queue);
                    self.connection = None;
                    self.phase = PeerPhase::Failed;
                    return ConnectStep::Done(Poll::Ready(Err(PeerError::TimedOut)));
                }
                match c.test_connect(use_kqueue, probe) {
                    Err(err) => {
                        self.phase = PeerPhase::Failed;
                        ConnectStep::Done(Poll::Ready(Err(PeerError::Io(err))))
                    },
                    Ok(()) => {
                        self.handler = PeerHandler::Io;
                        self.phase = PeerPhase::Connected;
                        ConnectStep::Done(Poll::Ready(Ok(())))
                    },
                }
            },
            None => {
                if naddrs == 0 {
                    ConnectStep::Done(Poll::Ready(Err(PeerError::Configuration)))
                } else {
                    ConnectStep::Connect(0)
                }
            },
        }
    }

    /// Whether the host's answer `rc` with connection `conn` is a connect
    /// attempt in progress.
    pub open spec fn in_progress(rc: isize, conn: Option<Connection>) -> bool {
        rc == NGX_AGAIN && conn is Some
    }

    /// Whether the host's answer `rc` with connection `conn` is an
    /// established connection.
    pub open spec fn established(rc: isize, conn: Option<Connection>) -> bool {
        rc == NGX_OK && conn is Some
    }

    /// The result of a connect attempt that the host answered with `rc`
    /// and connection `conn`.
    pub open spec fn connect_result(rc: isize, conn: Option<Connection>) -> Poll<
        Result<(), PeerError>,
    > {
        if is_refusal(rc) {
            Poll::Ready(Err(PeerError::Refused(rc)))
        } else if conn is None {
            Poll::Ready(Err(PeerError::Refused(NGX_ERROR)))
        } else if rc == NGX_OK {
            Poll::Ready(Ok(()))
        } else {
            Poll::Pending
        }
    }

    /// The peer connection after a connect attempt that the host answered
    /// with `rc` and connection `conn`, at `now`, on behalf of task
    /// `waker`.
    pub open spec fn after_connect(
        self,
        rc: isize,
        conn: Option<Connection>,
        now: u64,
        waker: TaskId,
    ) -> PeerConnection {
        if Self::established(rc, conn) {
            PeerConnection {
                phase: PeerPhase::Connected,
                connection: conn,
                handler: PeerHandler::Io,
                ..self
            }
        } else if Self::in_progress(rc, conn) {
            PeerConnection {
                phase: PeerPhase::Connecting,
                connection: Some(
                    Connection {
                        read: Event {
                            timer_key: timer_key(now, CONNECT_TIMEOUT),
                            timer_set: true,
                            ..conn->0.read
                        },
                        ..conn->0
                    },
                ),
                handler: PeerHandler::Connect,
                cev: Some(waker),
                ..self
            }
        } else {
            PeerConnection { phase: PeerPhase::Failed, connection: None, ..self }
        }
    }

    /// The timer tree after such a connect attempt: a connection that the
    /// peer connection held is closed, and the read event of a connection
    /// in progress is registered with the connect timeout.
    pub open spec fn connect_tree(
        self,
        rc: isize,
        conn: Option<Connection>,
        now: u64,
        tree: Seq<TimerNode>,
    ) -> Seq<TimerNode> {
        let t = match self.connection {
            Some(c) => closed_tree(c, tree),
            None => tree,
        };
        if Self::in_progress(rc, conn) {
            without_id(t, conn->0.read.data).push(
                TimerNode { key: timer_key(now, CONNECT_TIMEOUT), id: conn->0.read.data },
            )
        } else {
            t
        }
    }

    /// Takes the host's answer to a connect attempt: status `rc` and, where
    /// the host made one, the connection `conn`.
    ///
    /// A refusal (error, busy, declined) fails the peer connection with a
    /// connection error; so does an answer without a connection. Success
    /// establishes the connection. An attempt in progress installs the
    /// connect handler on both events, arms the connect timeout on the
    /// read event, stores `waker` as the task to wake, and suspends.
    ///
    /// A connection that the peer connection still held is closed first.
    pub fn connect(
        &mut self,
        rc: isize,
        conn: Option<Connection>,
        tree: &mut TimerTree,
        queue: &mut PostedQueue,
        now: u64,
        waker: TaskId,
    ) -> (r: Poll<Result<(), PeerError>>)
        requires
            is_connect_status(rc),
        ensures
            r == Self::connect_result(rc, conn),
            *final(self) == old(self).after_connect(rc, conn, now, waker),
            final(tree)@ == old(self).connect_tree(rc, conn, now, old(tree)@),
            final(queue)@ == match old(self).connection {
                Some(c) => closed_queue(c, old(queue)@),
                None => old(queue)@,
            },
    {
        match self.connection {
            Some(c) => {
                let mut c = c;
                c.close(tree, queue);
                self.connection = None;
            },
            None => {},
        }
        if rc == NGX_ERROR || rc == NGX_BUSY || rc == NGX_DECLINED {
            self.phase = PeerPhase::Failed;
            return Poll::Ready(Err(PeerError::Refused(rc)));
        }
        match conn {
            None => {
                self.phase = PeerPhase::Failed;
                Poll::Ready(Err(PeerError::Refused(NGX_ERROR)))
            },
            Some(c) => {
                if rc == NGX_OK {
                    self.connection = Some(c);
                    self.handler = PeerHandler::Io;
                    self.phase = PeerPhase::Connected;
                    Poll::Ready(Ok(()))
                } else {
                    let mut c = c;
                    let ghost before = tree@;
                    c.read.del_timer(tree);
                    c.read.add_timer(tree, now, CONNECT_TIMEOUT);
                    proof {
                        lemma_without_id(before, c.read.data, c.read.data);
                        lemma_without_id(without_id(before, c.read.data), c.read.data, c.read.data);
                    }
                    self.connection = Some(c);
                    self.handler = PeerHandler::Connect;
                    self.cev = Some(waker);
                    self.phase = PeerPhase::Connecting;
                    Poll::Pending
                }
            },
        }
    }

    /// Whether the connection is established and can take a read or a
    /// write.
    pub open spec fn usable(self) -> bool {
        self.phase == PeerPhase::Connected && self.connection is Some
    }

    /// Whether the host is to be asked for data: only on an established
    /// connection whose read event has not timed out. While the connect
    /// attempt is in progress nothing is read.
    pub fn read_ready(&self) -> (r: Result<(), PeerError>)
        ensures
            !self.usable() ==> r == Err::<(), PeerError>(PeerError::NotConnected),
            self.usable() && self.connection->0.read.timedout ==> r == Err::<(), PeerError>(
                PeerError::TimedOut,
            ),
            self.usable() && !self.connection->0.read.timedout ==> r == Ok::<(), PeerError>(()),
    {
        match (self.phase, self.connection) {
            (PeerPhase::Connected, Some(c)) => {
                if c.read.timedout {
                    Err(PeerError::TimedOut)
                } else {
                    Ok(())
                }
            },
            _ => Err(PeerError::NotConnected),
        }
    }

    /// Whether the host is to be asked to send: only on an established
    /// connection. While the connect attempt is in progress nothing is
    /// written.
    pub fn write_ready(&self) -> (r: Result<(), PeerError>)
        ensures
            !self.usable() ==> r == Err::<(), PeerError>(PeerError::NotConnected),
            self.usable() ==> r == Ok::<(), PeerError>(()),
    {
        match (self.phase, self.connection) {
            (PeerPhase::Connected, Some(_)) => Ok(()),
            _ => Err(PeerError::NotConnected),
        }
    }

    /// Whether a read that the host answered with `n`, and whose update of
    /// the read event the host answered with `handle_rc`, failed.
    pub open spec fn read_failed(n: isize, handle_rc: isize) -> bool {
        n == NGX_ERROR || handle_rc != NGX_OK
    }

    /// The result of a read on an established connection that the host
    /// answered with `n`, with system error `errno` where it failed, and
    /// whose update of the read event the host answered with `handle_rc`.
    pub open spec fn read_result(n: isize, errno: i32, handle_rc: isize) -> Poll<
        Result<usize, PeerError>,
    > {
        if n == NGX_ERROR {
            Poll::Ready(Err(PeerError::Io(errno)))
        } else if handle_rc != NGX_OK {
            Poll::Ready(Err(PeerError::UnexpectedEof))
        } else if n == NGX_AGAIN {
            Poll::Pending
        } else if n > 0 {
            Poll::Ready(Ok(n as usize))
        } else {
            Poll::Ready(Ok(0))
        }
    }

    /// The read event `read` after the read timer was brought in line with
    /// the host's interest at `now`: armed, subject to the lazy delay, while
    /// the host watches the socket, and not armed while it does not.
    pub open spec fn read_timer_event(read: Event, now: u64) -> Event {
        if read.active {
            if read.timer_set && crate::host::event::within_lazy_delay(
                timer_key(now, READ_TIMEOUT),
                read.timer_key,
            ) {
                read
            } else {
                Event { timer_key: timer_key(now, READ_TIMEOUT), timer_set: true, ..read }
            }
        } else {
            Event { timer_set: false, ..read }
        }
    }

    /// The timer tree after the read timer of `read` was brought in line
    /// with the host's interest at `now`.
    pub open spec fn read_timer_tree(read: Event, now: u64, tree: Seq<TimerNode>) -> Seq<
        TimerNode,
    > {
        if read.active {
            if read.timer_set && crate::host::event::within_lazy_delay(
                timer_key(now, READ_TIMEOUT),
                read.timer_key,
            ) {
                tree
            } else {
                without_id(tree, read.data).push(
                    TimerNode { key: timer_key(now, READ_TIMEOUT), id: read.data },
                )
            }
        } else if read.timer_set {
            without_id(tree, read.data)
        } else {
            tree
        }
    }

    /// The peer connection after such a read at `now` on behalf of task
    /// `waker`.
    pub open spec fn after_read(self, n: isize, handle_rc: isize, now: u64, waker: TaskId) -> PeerConnection {
        if !self.usable() {
            self
        } else if Self::read_failed(n, handle_rc) {
            PeerConnection { phase: PeerPhase::Failed, ..self }
        } else {
            let c = self.connection->0;
            PeerConnection {
                connection: Some(Connection { read: Self::read_timer_event(c.read, now), ..c }),
                rev: if n == NGX_AGAIN {
                    Some(waker)
                } else {
                    self.rev
                },
                ..self
            }
        }
    }

    /// Takes the host's answer to a read on an established connection.
    ///
    /// An error of the read fails with the system's error; a failed update
    /// of the read event with an unexpected end. Else the read timer is
    /// armed if the host watches the socket and disarmed if it does not.
    /// Then a read that would block stores `waker` and suspends, and any
    /// other hands out the number of bytes read.
    pub fn finish_read(
        &mut self,
        n: isize,
        errno: i32,
        handle_rc: isize,
        tree: &mut TimerTree,
        now: u64,
        waker: TaskId,
    ) -> (r: Poll<Result<usize, PeerError>>)
        ensures
            !old(self).usable() ==> r == Poll::<Result<usize, PeerError>>::Ready(
                Err(PeerError::NotConnected),
            ),
            old(self).usable() ==> r == Self::read_result(n, errno, handle_rc),
            *final(self) == old(self).after_read(n, handle_rc, now, waker),
            old(self).usable() && !Self::read_failed(n, handle_rc) ==> final(tree)@
                == Self::read_timer_tree(old(self).connection->0.read, now, old(tree)@),
            !(old(self).usable() && !Self::read_failed(n, handle_rc)) ==> final(tree)@
                == old(tree)@,
    {
        match (self.phase, self.connection) {
            (PeerPhase::Connected, Some(c)) => {
                if n == NGX_ERROR {
                    self.phase = PeerPhase::Failed;
                    return Poll::Ready(Err(PeerError::Io(errno)));
                }
                if handle_rc != NGX_OK {
                    self.phase = PeerPhase::Failed;
                    return Poll::Ready(Err(PeerError::UnexpectedEof));
                }
                let mut c = c;
                if c.read.active {
                    c.read.add_timer(tree, now, READ_TIMEOUT);
                } else if c.read.timer_set {
                    c.read.del_timer(tree);
                }
                self.connection = Some(c);
                if n == NGX_AGAIN {
                    self.rev = Some(waker);
                    return Poll::Pending;
                }
                if n > 0 {
                    Poll::Ready(Ok(n as usize))
                } else {
                    Poll::Ready(Ok(0))
                }
            },
            _ => Poll::Ready(Err(PeerError::NotConnected)),
        }
    }

    /// The result of a write on an established connection that the host
    /// answered with `n`.
    pub open spec fn write_result(n: isize) -> Poll<Result<usize, PeerError>> {
        if n == NGX_AGAIN {
            Poll::Pending
        } else if n > 0 {
            Poll::Ready(Ok(n as usize))
        } else {
            Poll::Ready(Err(PeerError::UnexpectedEof))
        }
    }

    /// The peer connection after such a write on behalf of task `waker`.
    pub open spec fn after_write(self, n: isize, waker: TaskId) -> PeerConnection {
        if !self.usable() {
            self
        } else if n == NGX_AGAIN {
            PeerConnection { wev: Some(waker), ..self }
        } else if n > 0 {
            self
        } else {
            PeerConnection { phase: PeerPhase::Failed, ..self }
        }
    }

    /// Takes the host's answer to a write on an established connection: a
    /// write that would block stores `waker` and suspends, one that sent
    /// bytes hands out their number, and any other fails with an unexpected
    /// end.
    pub fn finish_write(&mut self, n: isize, waker: TaskId) -> (r: Poll<Result<usize, PeerError>>)
        ensures
            !old(self).usable() ==> r == Poll::<Result<usize, PeerError>>::Ready(
                Err(PeerError::NotConnected),
            ),
            old(self).usable() ==> r == Self::write_result(n),
            *final(self) == old(self).after_write(n, waker),
    {
        match (self.phase, self.connection) {
            (PeerPhase::Connected, Some(_)) => {
                if n == NGX_AGAIN {
                    self.wev = Some(waker);
                    Poll::Pending
                } else if n > 0 {
                    Poll::Ready(Ok(n as usize))
                } else {
                    self.phase = PeerPhase::Failed;
                    Poll::Ready(Err(PeerError::UnexpectedEof))
                }
            },
            _ => Poll::Ready(Err(PeerError::NotConnected)),
        }
    }

    /// Whether shutting down the writing side has anything to shut down: a
    /// connection of the host is there.
    pub fn poll_shutdown(&self) -> (r: bool)
        ensures
            r == (self.connection is Some),
    {
        self.connection.is_some()
    }

    /// The handler of both events while the connect attempt is in
    /// progress: hands out the task that waits for its end, once.
    pub fn connect_handler(&mut self) -> (r: Option<TaskId>)
        ensures
            r == old(self).cev,
            *final(self) == (PeerConnection { cev: None, ..*old(self) }),
    {
        self.cev.take()
    }

    /// The handler of the read event of an established connection: hands
    /// out the task that waits for data, once. It reads nothing.
    pub fn read_handler(&mut self) -> (r: Option<TaskId>)
        ensures
            r == old(self).rev,
            *final(self) == (PeerConnection { rev: None, ..*old(self) }),
    {
        self.rev.take()
    }

    /// The handler of the write event of an established connection: hands
    /// out the task that waits for room, once. It writes nothing.
    pub fn write_handler(&mut self) -> (r: Option<TaskId>)
        ensures
            r == old(self).wev,
            *final(self) == (PeerConnection { wev: None, ..*old(self) }),
    {
        self.wev.take()
    }

    /// The task that the handler installed on the events hands out when
    /// the host fires the write event (`write`) or the read event.
    pub open spec fn woken_by(self, write: bool) -> Option<TaskId> {
        match self.handler {
            PeerHandler::Unset => None,
            PeerHandler::Connect => self.cev,
            PeerHandler::Io => if write {
                self.wev
            } else {
                self.rev
            },
        }
    }

    /// The peer connection after the host fired one of its events.
    pub open spec fn after_event(self, write: bool) -> PeerConnection {
        match self.handler {
            PeerHandler::Unset => self,
            PeerHandler::Connect => PeerConnection { cev: None, ..self },
            PeerHandler::Io => if write {
                PeerConnection { wev: None, ..self }
            } else {
                PeerConnection { rev: None, ..self }
            },
        }
    }

    /// Calls the handler that is installed on the events, for the write
    /// event (`write`) or the read event that the host fired, and hands out
    /// the task to wake.
    pub fn on_event(&mut self, write: bool) -> (r: Option<TaskId>)
        ensures
            r == old(self).woken_by(write),
            *final(self) == old(self).after_event(write),
    {
        match self.handler {
            PeerHandler::Unset => None,
            PeerHandler::Connect => self.connect_handler(),
            PeerHandler::Io => if write {
                self.write_handler()
            } else {
                self.read_handler()
            },
        }
    }

    /// Ends the peer connection: a connection of the host that it holds is
    /// closed, in whatever phase, and nobody waits any more.
    pub fn close(&mut self, tree: &mut TimerTree, queue: &mut PostedQueue)
        ensures
            *final(self) == (PeerConnection {
                phase: PeerPhase::Closed,
                connection: None,
                handler: PeerHandler::Unset,
                cev: None,
                rev: None,
                wev: None,
            }),
            final(tree)@ == match old(self).connection {
                Some(c) => closed_tree(c, old(tree)@),
                None => old(tree)@,
            },
            final(queue)@ == match old(self).connection {
                Some(c) => closed_queue(c, old(queue)@),
                None => old(queue)@,
            },
    {
        match self.connection {
            Some(c) => {
                let mut c = c;
                c.close(tree, queue);
            },
            None => {},
        }
        self.connection = None;
        self.phase = PeerPhase::Closed;
        self.handler = PeerHandler::Unset;
        self.cev = None;
        self.rev = None;
        self.wev = None;
    }
}

/// A connect attempt always comes to an end. A refusal of the host fails
/// it at once. An attempt in progress arms the connect timeout, and once
/// the host has marked the read event as timed out the next poll fails with
/// a timeout, whatever the socket reports. And while the attempt is in
/// progress, neither a read nor a write is handed to the host.
pub proof fn lemma_connect_ends(
    p: PeerConnection,
    rc: isize,
    conn: Connection,
    now: u64,
    waker: TaskId,
    naddrs: usize,
    use_kqueue: bool,
    probe: SocketProbe,
)
    requires
        is_connect_status(rc),
    ensures
        is_refusal(rc) ==> PeerConnection::connect_result(rc, Some(conn)) == Poll::<
            Result<(), PeerError>,
        >::Ready(Err(PeerError::Refused(rc))),
        rc == NGX_AGAIN ==> ({
            let q = p.after_connect(rc, Some(conn), now, waker);
            let fired = PeerConnection {
                connection: Some(
                    Connection {
                        read: Event { timer_set: false, timedout: true, ..q.connection->0.read },
                        ..q.connection->0
                    },
                ),
                ..q
            };
            &&& q.phase == PeerPhase::Connecting
            &&& !q.usable()
            &&& q.connection->0.read.timer_set
            &&& q.connection->0.read.timer_key == timer_key(now, CONNECT_TIMEOUT)
            &&& q.cev == Some(waker)
            &&& q.woken_by(true) == Some(waker)
            &&& q.woken_by(false) == Some(waker)
            &&& fired.poll_connect_step(naddrs, use_kqueue, probe) == ConnectStep::Done(
                Poll::Ready(Err(PeerError::TimedOut)),
            )
            &&& fired.after_poll_connect(use_kqueue, probe).phase == PeerPhase::Failed
        }),
{
}

} // verus!
