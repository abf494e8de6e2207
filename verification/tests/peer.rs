use ngx_runtime::async_::peer::{
    ConnectStep, PeerConnection, PeerError, PeerHandler, PeerPhase, CONNECT_TIMEOUT, READ_TIMEOUT,
};
use ngx_runtime::async_::poll::Poll;
use ngx_runtime::host::connection::{Connection, SocketProbe, CLOSED_FD};
use ngx_runtime::host::event::{PostedQueue, TimerTree};
use ngx_runtime::host::status::{NGX_AGAIN, NGX_BUSY, NGX_DECLINED, NGX_ERROR, NGX_OK};

const QUIET: SocketProbe = SocketProbe { rc: 0, so_error: 0, errno: 0 };

fn connected() -> (PeerConnection, TimerTree, PostedQueue) {
    let mut tree = TimerTree::new();
    let mut queue = PostedQueue::new();
    let mut peer = PeerConnection::new();
    let r = peer.connect(NGX_OK, Some(Connection::new(5, 50, 51)), &mut tree, &mut queue, 0, 1);
    assert_eq!(r, Poll::Ready(Ok(())));
    (peer, tree, queue)
}

#[test]
fn poll_connect_without_address_is_a_configuration_error() {
    let mut tree = TimerTree::new();
    let mut queue = PostedQueue::new();
    let mut peer = PeerConnection::new();
    let step = peer.poll_connect(0, false, QUIET, &mut tree, &mut queue);
    assert!(matches!(
        step,
        ConnectStep::Done(Poll::Ready(Err(PeerError::Configuration)))
    ));
    assert_eq!(peer.phase, PeerPhase::Unconnected);
    assert!(peer.connection.is_none());
}

#[test]
fn poll_connect_asks_for_the_first_address() {
    let mut tree = TimerTree::new();
    let mut queue = PostedQueue::new();
    let mut peer = PeerConnection::new();
    let step = peer.poll_connect(3, false, QUIET, &mut tree, &mut queue);
    assert!(matches!(step, ConnectStep::Connect(0)));
    assert_eq!(peer.phase, PeerPhase::Unconnected);
}

#[test]
fn immediate_success_connects() {
    let (peer, tree, _) = connected();
    assert_eq!(peer.phase, PeerPhase::Connected);
    assert_eq!(peer.handler, PeerHandler::Io);
    assert_eq!(peer.connection.unwrap().fd, 5);
    assert_eq!(peer.cev, None);
    assert_eq!(tree.len(), 0);
}

#[test]
fn refusals_fail_the_connection() {
    for rc in [NGX_ERROR, NGX_BUSY, NGX_DECLINED] {
        let mut tree = TimerTree::new();
        let mut queue = PostedQueue::new();
        let mut peer = PeerConnection::new();
        let r = peer.connect(rc, None, &mut tree, &mut queue, 0, 1);
        assert_eq!(r, Poll::Ready(Err(PeerError::Refused(rc))));
        assert_eq!(peer.phase, PeerPhase::Failed);
        assert!(peer.connection.is_none());
        assert_eq!(peer.read_ready(), Err(PeerError::NotConnected));
    }
}

#[test]
fn answer_without_connection_fails() {
    let mut tree = TimerTree::new();
    let mut queue = PostedQueue::new();
    let mut peer = PeerConnection::new();
    let r = peer.connect(NGX_OK, None, &mut tree, &mut queue, 0, 1);
    assert_eq!(r, Poll::Ready(Err(PeerError::Refused(NGX_ERROR))));
    assert_eq!(peer.phase, PeerPhase::Failed);
}

#[test]
fn connect_in_progress_suspends_with_timeout() {
    let mut tree = TimerTree::new();
    let mut queue = PostedQueue::new();
    let mut peer = PeerConnection::new();
    let r = peer.connect(NGX_AGAIN, Some(Connection::new(5, 50, 51)), &mut tree, &mut queue, 1_000, 4);
    assert_eq!(r, Poll::Pending);
    assert_eq!(peer.phase, PeerPhase::Connecting);
    assert_eq!(peer.handler, PeerHandler::Connect);
    assert_eq!(peer.cev, Some(4));
    assert_eq!(CONNECT_TIMEOUT, 5_000);
    assert_eq!(tree.key(50), Some(6_000));
    // Nothing is read or written while the attempt is in progress.
    assert_eq!(peer.read_ready(), Err(PeerError::NotConnected));
    assert_eq!(peer.write_ready(), Err(PeerError::NotConnected));
    assert_eq!(
        peer.finish_read(10, 0, NGX_OK, &mut tree, 1_000, 4),
        Poll::Ready(Err(PeerError::NotConnected))
    );
    assert_eq!(peer.finish_write(10, 4), Poll::Ready(Err(PeerError::NotConnected)));
    assert_eq!(peer.phase, PeerPhase::Connecting);
    // Either event wakes the task that waits for the connect.
    assert_eq!(peer.on_event(true), Some(4));
    assert_eq!(peer.on_event(false), None);
}

#[test]
fn connect_completes_on_a_clean_socket() {
    let mut tree = TimerTree::new();
    let mut queue = PostedQueue::new();
    let mut peer = PeerConnection::new();
    peer.connect(NGX_AGAIN, Some(Connection::new(5, 50, 51)), &mut tree, &mut queue, 0, 4);
    let step = peer.poll_connect(1, false, QUIET, &mut tree, &mut queue);
    assert!(matches!(step, ConnectStep::Done(Poll::Ready(Ok(())))));
    assert_eq!(peer.phase, PeerPhase::Connected);
    assert_eq!(peer.handler, PeerHandler::Io);
    assert_eq!(peer.read_ready(), Ok(()));
    assert_eq!(peer.write_ready(), Ok(()));
}

#[test]
fn connect_to_a_dead_port_ends_with_the_socket_error() {
    let mut tree = TimerTree::new();
    let mut queue = PostedQueue::new();
    let mut peer = PeerConnection::new();
    peer.connect(NGX_AGAIN, Some(Connection::new(5, 50, 51)), &mut tree, &mut queue, 0, 4);
    let refused = SocketProbe { rc: 0, so_error: 111, errno: 0 };
    let step = peer.poll_connect(1, false, refused, &mut tree, &mut queue);
    assert!(matches!(
        step,
        ConnectStep::Done(Poll::Ready(Err(PeerError::Io(111))))
    ));
    assert_eq!(peer.phase, PeerPhase::Failed);
    // The connection is still held, and closed with the peer connection.
    assert!(peer.connection.is_some());
    peer.close(&mut tree, &mut queue);
    assert!(peer.connection.is_none());
    assert!(!tree.contains(50));
}

#[test]
fn connect_timeout_closes_and_fails() {
    let mut tree = TimerTree::new();
    let mut queue = PostedQueue::new();
    let mut peer = PeerConnection::new();
    peer.connect(NGX_AGAIN, Some(Connection::new(5, 50, 51)), &mut tree, &mut queue, 0, 4);
    // The host fires the timer of the read event.
    let fired = tree.expire(CONNECT_TIMEOUT);
    assert_eq!(fired.len(), 1);
    assert_eq!(fired[0].id, 50);
    let mut c = peer.connection.unwrap();
    c.read.expire();
    peer.connection = Some(c);
    assert_eq!(peer.on_event(false), Some(4));
    let step = peer.poll_connect(1, false, QUIET, &mut tree, &mut queue);
    assert!(matches!(
        step,
        ConnectStep::Done(Poll::Ready(Err(PeerError::TimedOut)))
    ));
    assert_eq!(peer.phase, PeerPhase::Failed);
    assert!(peer.connection.is_none());
    assert_eq!(tree.len(), 0);
}

#[test]
fn read_that_would_block_suspends_and_arms_the_timer() {
    let (mut peer, mut tree, _) = connected();
    let mut c = peer.connection.unwrap();
    c.read.active = true;
    peer.connection = Some(c);
    let r = peer.finish_read(NGX_AGAIN, 0, NGX_OK, &mut tree, 2_000, 9);
    assert_eq!(r, Poll::Pending);
    assert_eq!(peer.rev, Some(9));
    assert_eq!(READ_TIMEOUT, 5_000);
    assert_eq!(tree.key(50), Some(7_000));
    // A poll by another task overwrites the waiting one.
    let r = peer.finish_read(NGX_AGAIN, 0, NGX_OK, &mut tree, 2_100, 10);
    assert_eq!(r, Poll::Pending);
    assert_eq!(peer.rev, Some(10));
    assert_eq!(tree.key(50), Some(7_000));
    // The read event wakes the reader and reads nothing.
    assert_eq!(peer.on_event(true), None);
    assert_eq!(peer.on_event(false), Some(10));
    assert_eq!(peer.on_event(false), None);
}

#[test]
fn read_hands_out_the_byte_count_and_disarms_an_idle_timer() {
    let (mut peer, mut tree, _) = connected();
    let mut c = peer.connection.unwrap();
    c.read.active = true;
    peer.connection = Some(c);
    peer.finish_read(NGX_AGAIN, 0, NGX_OK, &mut tree, 0, 9);
    assert!(tree.contains(50));
    // The host no longer watches the socket.
    let mut c = peer.connection.unwrap();
    c.read.active = false;
    peer.connection = Some(c);
    let r = peer.finish_read(42, 0, NGX_OK, &mut tree, 10, 9);
    assert_eq!(r, Poll::Ready(Ok(42)));
    assert!(!tree.contains(50));
    assert!(!peer.connection.unwrap().read.timer_set);
    // End of stream.
    let r = peer.finish_read(0, 0, NGX_OK, &mut tree, 10, 9);
    assert_eq!(r, Poll::Ready(Ok(0)));
}

#[test]
fn read_errors() {
    let (mut peer, mut tree, _) = connected();
    let r = peer.finish_read(NGX_ERROR, 104, NGX_OK, &mut tree, 0, 9);
    assert_eq!(r, Poll::Ready(Err(PeerError::Io(104))));
    assert_eq!(peer.phase, PeerPhase::Failed);

    let (mut peer, mut tree, _) = connected();
    let r = peer.finish_read(10, 0, NGX_ERROR, &mut tree, 0, 9);
    assert_eq!(r, Poll::Ready(Err(PeerError::UnexpectedEof)));
    assert_eq!(peer.phase, PeerPhase::Failed);
    assert_eq!(tree.len(), 0);
}

#[test]
fn timed_out_read_fails_without_io() {
    let (mut peer, _, _) = connected();
    let mut c = peer.connection.unwrap();
    c.read.timedout = true;
    peer.connection = Some(c);
    assert_eq!(peer.read_ready(), Err(PeerError::TimedOut));
    assert_eq!(peer.write_ready(), Ok(()));
}

#[test]
fn write_results() {
    let (mut peer, _, _) = connected();
    assert_eq!(peer.finish_write(NGX_AGAIN, 3), Poll::Pending);
    assert_eq!(peer.wev, Some(3));
    assert_eq!(peer.on_event(true), Some(3));
    assert_eq!(peer.finish_write(17, 3), Poll::Ready(Ok(17)));
    assert_eq!(peer.phase, PeerPhase::Connected);
    assert_eq!(peer.finish_write(0, 3), Poll::Ready(Err(PeerError::UnexpectedEof)));
    assert_eq!(peer.phase, PeerPhase::Failed);
}

#[test]
fn close_releases_socket_and_registrations() {
    let mut tree = TimerTree::new();
    let mut queue = PostedQueue::new();
    let mut peer = PeerConnection::new();
    peer.connect(NGX_AGAIN, Some(Connection::new(5, 50, 51)), &mut tree, &mut queue, 0, 4);
    let mut c = peer.connection.unwrap();
    c.write.post_event(&mut queue);
    c.write.add_timer(&mut tree, 0, 100);
    peer.connection = Some(c);
    assert!(peer.poll_shutdown());
    assert_eq!(tree.len(), 2);
    assert_eq!(queue.len(), 1);
    peer.close(&mut tree, &mut queue);
    assert_eq!(peer.phase, PeerPhase::Closed);
    assert!(peer.connection.is_none());
    assert_eq!(peer.cev, None);
    assert_eq!(tree.len(), 0);
    assert!(queue.is_empty());
    assert!(!peer.poll_shutdown());
    // Closing twice is harmless.
    peer.close(&mut tree, &mut queue);
    assert_eq!(peer.phase, PeerPhase::Closed);
}

#[test]
fn connection_close_marks_the_descriptor() {
    let mut tree = TimerTree::new();
    let mut queue = PostedQueue::new();
    let mut c = Connection::new(8, 1, 2);
    assert!(!c.is_closed());
    c.read.add_timer(&mut tree, 0, 10);
    c.write.post_event(&mut queue);
    c.close(&mut tree, &mut queue);
    assert!(c.is_closed());
    assert_eq!(c.fd, CLOSED_FD);
    assert_eq!(tree.len(), 0);
    assert!(queue.is_empty());
}

#[test]
fn second_connect_closes_the_first_connection() {
    let (mut peer, mut tree, mut queue) = connected();
    let mut c = peer.connection.unwrap();
    c.read.add_timer(&mut tree, 0, 10);
    peer.connection = Some(c);
    let r = peer.connect(NGX_OK, Some(Connection::new(6, 60, 61)), &mut tree, &mut queue, 0, 1);
    assert_eq!(r, Poll::Ready(Ok(())));
    assert_eq!(peer.connection.unwrap().fd, 6);
    assert!(!tree.contains(50));
}
