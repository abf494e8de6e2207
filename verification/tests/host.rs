use ngx_runtime::async_::http::{Buf, RequestBody};
use ngx_runtime::async_::poll::Poll;
use ngx_runtime::host::buffer::{TemporaryBuffer, NGX_BUF_SIZE};
use ngx_runtime::host::conf_file::NgxConfRef;
use ngx_runtime::host::connection::{Connection, ConnectionLogError, SocketProbe};
use ngx_runtime::host::pool::{Pool, NGX_ALIGNMENT, NGX_POOL_CLEANUP_SIZE};
use ngx_runtime::host::status::{Status, NGX_AGAIN, NGX_BUSY, NGX_DECLINED, NGX_ERROR, NGX_OK};
use ngx_runtime::host::string::NgxStr;
use ngx_runtime::http::conf::{
    HttpConfCtx, HttpCoreLocConf, HttpCoreMainConf, HttpCoreSrvConf, HttpModuleConf,
    HttpModuleConfType, NgxHttpConfExt, UpstreamSrvConf,
};

#[test]
fn test_connect_reads_the_probe() {
    let c = Connection::new(3, 1, 2);
    assert_eq!(c.test_connect(false, SocketProbe { rc: 0, so_error: 0, errno: 0 }), Ok(()));
    assert_eq!(c.test_connect(false, SocketProbe { rc: 0, so_error: 111, errno: 0 }), Err(111));
    // The query itself failed: its own error counts.
    assert_eq!(c.test_connect(false, SocketProbe { rc: -1, so_error: 0, errno: 9 }), Err(9));
    assert_eq!(c.test_connect(false, SocketProbe { rc: -1, so_error: 111, errno: 0 }), Ok(()));
    // Without a kernel queue the events are not looked at.
    let mut d = c;
    d.write.pending_eof = true;
    d.write.kq_errno = 61;
    assert_eq!(d.test_connect(false, SocketProbe { rc: 0, so_error: 0, errno: 0 }), Ok(()));
}

#[test]
fn test_connect_with_kernel_queue_reads_the_events() {
    let probe = SocketProbe { rc: 0, so_error: 111, errno: 0 };
    let mut c = Connection::new(3, 1, 2);
    assert_eq!(c.test_connect(true, probe), Ok(()));
    c.read.pending_eof = true;
    c.read.kq_errno = 54;
    assert_eq!(c.test_connect(true, probe), Err(54));
    c.write.pending_eof = true;
    c.write.kq_errno = 61;
    assert_eq!(c.test_connect(true, probe), Err(61));
}

#[test]
fn shutdown_and_log_level() {
    let mut c = Connection::new(3, 1, 2);
    assert_eq!(c.shutdown(0, 5), Ok(()));
    assert_eq!(c.shutdown(-1, 5), Err(5));
    c.set_log_error(ConnectionLogError::Info);
    assert_eq!(c.log_error, ConnectionLogError::Info);
    assert_eq!(ConnectionLogError::Alert.code(), 0);
    assert_eq!(ConnectionLogError::Error.code(), 1);
    assert_eq!(ConnectionLogError::Info.code(), 2);
    assert_eq!(ConnectionLogError::IgnoreConnectionReset.code(), 3);
    assert_eq!(ConnectionLogError::IgnoreInvalidArgument.code(), 4);
    assert_eq!(ConnectionLogError::IgnoreMessageTooLong.code(), 5);
}

#[test]
fn status_codes() {
    assert_eq!((NGX_OK, NGX_ERROR, NGX_AGAIN, NGX_BUSY, NGX_DECLINED), (0, -1, -2, -3, -5));
    assert!(Status(NGX_OK).is_ok());
    assert!(!Status(NGX_AGAIN).is_ok());
    assert!(Status(NGX_ERROR).is_refusal());
    assert!(Status(NGX_BUSY).is_refusal());
    assert!(Status(NGX_DECLINED).is_refusal());
    assert!(!Status(NGX_AGAIN).is_refusal());
    assert!(!Status(NGX_OK).is_refusal());
}

#[test]
fn ngx_str_text() {
    let s = NgxStr::from_ngx_str(b"hello".to_vec());
    assert_eq!(s.len(), 5);
    assert!(!s.is_empty());
    assert_eq!(s.as_bytes(), b"hello");
    assert_eq!(s.to_str().unwrap(), "hello");
    assert_eq!(s.to_string_lossy(), "hello");
    assert_eq!(s.clone().as_bytes(), b"hello");
    let d = NgxStr::default();
    assert!(d.is_empty());
    assert_eq!(d.to_str().unwrap(), "");
}

#[test]
fn ngx_str_invalid_utf8() {
    let s = NgxStr::from_ngx_str(vec![b'a', 0xff, b'b']);
    assert!(s.to_str().is_err());
    assert_eq!(s.to_string_lossy(), "a\u{fffd}b");
    let two = NgxStr::from_ngx_str(vec![0xc3, 0xa9]);
    assert_eq!(two.to_str().unwrap(), "\u{e9}");
    assert_eq!(two.to_str().unwrap().chars().count(), 1);
}

#[test]
fn pool_allocations_are_aligned() {
    let mut pool = Pool::create(64);
    let p = pool.as_mut();
    assert_eq!(p.capacity(), 64);
    assert_eq!(NGX_ALIGNMENT, 8);
    assert_eq!(p.palloc(3), Some(0));
    assert_eq!(p.used(), 3);
    assert_eq!(p.palloc(4), Some(8));
    assert_eq!(p.used(), 12);
    assert_eq!(p.alloc_unaligned(1), Some(12));
    assert_eq!(p.alloc_unaligned(2), Some(13));
    assert_eq!(p.alloc_type::<u32>(), Some(16));
    assert_eq!(p.used(), 20);
    assert_eq!(p.alloc_type_unaligned::<u16>(), Some(20));
    assert_eq!(p.alloc_type::<u64>(), Some(24));
    assert_eq!(p.used(), 32);
    // Exactly the rest fits; one byte more does not.
    assert_eq!(p.palloc(33), None);
    assert_eq!(p.used(), 32);
    assert_eq!(p.palloc(32), Some(32));
    assert_eq!(p.palloc(0), Some(64));
    assert_eq!(p.palloc(1), None);
    assert_eq!(p.alloc_unaligned(1), None);
}

#[test]
fn pool_calloc_zeroes_only_its_range() {
    let mut pool = Pool::create(32);
    let p = pool.as_mut();
    for i in 0..32 {
        p.set_byte(i, 0xaa);
    }
    assert_eq!(p.alloc_unaligned(1), Some(0));
    assert_eq!(p.calloc(4), Some(8));
    for i in 0..32 {
        let expected = if (8..12).contains(&i) { 0 } else { 0xaa };
        assert_eq!(p.byte(i), Some(expected));
    }
    assert_eq!(p.byte(32), None);
    assert_eq!(p.calloc_type::<u64>(), Some(16));
    assert_eq!(p.byte(16), Some(0));
    assert_eq!(p.byte(23), Some(0));
    assert_eq!(p.byte(24), Some(0xaa));
    assert_eq!(p.calloc(9), None);
    assert_eq!(p.used(), 24);
    assert_eq!(pool.as_ref().used(), 24);
}

#[test]
fn pool_cleanups_run_latest_first() {
    let mut pool = Pool::create(128);
    let p = pool.as_mut();
    assert_eq!(NGX_POOL_CLEANUP_SIZE, 24);
    assert!(p.fits_with_cleanup(16));
    assert_eq!(p.allocate(16), Some(0));
    assert_eq!(p.used(), 40);
    assert_eq!(p.allocate(8), Some(40));
    assert_eq!(p.used(), 72);
    assert_eq!(p.allocate(8), Some(72));
    assert_eq!(p.used(), 104);
    // The value fits, the record of its handler does not.
    assert!(!p.fits_with_cleanup(8));
    assert_eq!(p.allocate(8), None);
    assert_eq!(p.used(), 112);
    assert_eq!(p.allocate(100), None);
    assert_eq!(p.used(), 112);
    assert_eq!(pool.destroy(), vec![72, 40, 0]);
}

struct LocConf;

impl HttpModuleConf for LocConf {
    fn spec_context() -> HttpModuleConfType {
        HttpModuleConfType::Location
    }

    fn spec_module() -> usize {
        1
    }

    fn context() -> HttpModuleConfType {
        HttpModuleConfType::Location
    }

    fn module() -> usize {
        1
    }
}

fn ctx() -> HttpConfCtx {
    HttpConfCtx {
        main_conf: vec![Some(10), None],
        srv_conf: vec![Some(20), Some(21)],
        loc_conf: vec![None, Some(31)],
    }
}

#[test]
fn module_conf_lookup() {
    let c = ctx();
    assert_eq!(c.get_http_module_conf_unchecked(HttpModuleConfType::Main, 0), Some(10));
    assert_eq!(c.get_http_module_conf_unchecked(HttpModuleConfType::Main, 1), None);
    assert_eq!(c.get_http_module_conf_unchecked(HttpModuleConfType::Server, 1), Some(21));
    assert_eq!(c.get_http_module_conf_unchecked(HttpModuleConfType::Location, 1), Some(31));
    assert_eq!(c.get_http_module_conf_unchecked(HttpModuleConfType::Location, 2), None);
    assert_eq!(c.get_http_module_conf::<LocConf>(), Some(31));
    assert_eq!(c.get_http_module_conf::<HttpCoreMainConf>(), Some(10));
    assert_eq!(c.get_http_module_conf::<HttpCoreSrvConf>(), Some(20));
    assert_eq!(c.get_http_module_conf::<HttpCoreLocConf>(), None);
    let up = UpstreamSrvConf { srv_conf: Some(vec![None, Some(7)]) };
    assert_eq!(up.get_http_module_conf_unchecked(HttpModuleConfType::Server, 1), Some(7));
    assert_eq!(up.get_http_module_conf_unchecked(HttpModuleConfType::Server, 0), None);
    assert_eq!(up.get_http_module_conf::<HttpCoreSrvConf>(), None);
    let none = UpstreamSrvConf { srv_conf: None };
    assert_eq!(none.get_http_module_conf_unchecked(HttpModuleConfType::Server, 1), None);
}

#[test]
fn conf_args_and_pool() {
    let args = vec![
        NgxStr::from_ngx_str(b"async_pass".to_vec()),
        NgxStr::from_ngx_str(b"127.0.0.1:8080".to_vec()),
    ];
    let mut cf = NgxConfRef::new(Some(args), Pool::create(16), Some(ctx()));
    assert_eq!(cf.args().len(), 2);
    assert_eq!(cf.args()[1].as_bytes(), b"127.0.0.1:8080");
    assert_eq!(cf.pool().palloc(8), Some(0));
    assert_eq!(cf.pool().palloc(8), Some(8));
    assert_eq!(cf.pool().palloc(8), None);
    assert_eq!(cf.get_http_module_conf::<LocConf>(), Some(31));
    assert!(cf.ctx().is_some());
    let bare = NgxConfRef::new(None, Pool::create(0), None);
    assert!(bare.args().is_empty());
    assert_eq!(bare.get_http_module_conf_unchecked(HttpModuleConfType::Main, 0), None);
}

#[test]
fn buf_consumes_from_the_front() {
    let mut b = Buf::new(b"abcdef".to_vec());
    assert_eq!(b.remaining(), 6);
    assert_eq!(b.chunk(), b"abcdef");
    b.advance(2);
    assert_eq!(b.remaining(), 4);
    assert_eq!(b.chunk(), b"cdef");
    b.advance(0);
    b.advance(4);
    assert_eq!(b.remaining(), 0);
    assert!(b.chunk().is_empty());
}

#[test]
fn request_body_waits_for_the_host_then_yields_the_chain() {
    let mut body = RequestBody::default();
    assert!(!body.is_end_stream());
    assert!(matches!(body.poll_frame(7), Poll::Pending));
    assert!(matches!(body.poll_frame(8), Poll::Pending));
    let woken = body.update(vec![Buf::new(b"one".to_vec()), Buf::new(b"two".to_vec())]);
    assert_eq!(woken, Some(8));
    assert!(!body.is_end_stream());
    match body.poll_frame(8) {
        Poll::Ready(Some(b)) => assert_eq!(b.chunk(), b"one"),
        _ => panic!("first buffer expected"),
    }
    match body.poll_frame(8) {
        Poll::Ready(Some(b)) => assert_eq!(b.chunk(), b"two"),
        _ => panic!("second buffer expected"),
    }
    assert!(body.is_end_stream());
    assert!(matches!(body.poll_frame(8), Poll::Ready(None)));
    assert!(matches!(body.poll_frame(8), Poll::Ready(None)));
}

#[test]
fn empty_request_body_ends_at_once() {
    let mut body = RequestBody::default();
    assert_eq!(body.update(Vec::new()), None);
    assert!(body.is_end_stream());
    assert!(matches!(body.poll_frame(1), Poll::Ready(None)));
}

#[test]
fn temporary_buffer_takes_header_and_room() {
    let mut pool = Pool::create(256);
    let p = pool.as_mut();
    assert_eq!(NGX_BUF_SIZE, 80);
    assert_eq!(p.alloc_unaligned(3), Some(0));
    let b = p.create_buffer(10).unwrap();
    assert_eq!(
        b,
        TemporaryBuffer { header: 8, start: 88, pos: 88, last: 88, end: 98 }
    );
    assert_eq!(p.used(), 98);
    // The header fits, the room does not: the header stays taken.
    assert_eq!(p.create_buffer(100), None);
    assert_eq!(p.used(), 184);
    // Not even the header fits.
    assert_eq!(p.create_buffer(0), None);
    assert_eq!(p.used(), 184);
}

#[test]
fn buffer_from_str_copies_the_text() {
    let mut pool = Pool::create(128);
    let p = pool.as_mut();
    for i in 0..128 {
        p.set_byte(i, 0xee);
    }
    let b = p.create_buffer_from_str("h\u{e9}llo").unwrap();
    assert_eq!((b.header, b.start, b.pos, b.last, b.end), (0, 80, 80, 86, 86));
    let content: Vec<u8> = (b.pos..b.last).map(|i| p.byte(i).unwrap()).collect();
    assert_eq!(content, "h\u{e9}llo".as_bytes());
    // The header is zeroed, the bytes behind the content are untouched.
    assert_eq!(p.byte(0), Some(0));
    assert_eq!(p.byte(79), Some(0));
    assert_eq!(p.byte(86), Some(0xee));
    assert_eq!(p.used(), 86);
    assert!(p.create_buffer_from_str("too long for the rest of the pool").is_none());
    let mut empty = Pool::create(80);
    let b = empty.as_mut().create_buffer_from_str("").unwrap();
    assert_eq!((b.pos, b.last), (80, 80));
}

#[test]
fn buffer_from_static_str_takes_only_a_header() {
    let mut pool = Pool::create(100);
    let p = pool.as_mut();
    let b = p.create_buffer_from_static_str("static text").unwrap();
    assert_eq!(b.header, 0);
    assert_eq!(b.text, "static text");
    assert_eq!(p.used(), 80);
    assert!(p.create_buffer_from_static_str("more").is_none());
    assert_eq!(p.used(), 80);
}
