use async_demos::fut_demo::Fut;
use async_demos::progress::Progress;
use async_demos::retfut::ReturnFuture;
use async_demos::self_ref::SelfRef;
use async_demos::connection::{Connection, Dispatcher, HttpConnection};

#[test]
fn awaiting_is_pending_five_times_then_ready() {
    let mut f = Fut { i: 0 };
    for expected in 1..=5u32 {
        assert!(matches!(f.awaiting(), Progress::Pending));
        assert_eq!(f.i, expected);
    }
    assert!(matches!(f.awaiting(), Progress::Ready(5)));
    assert!(matches!(f.awaiting(), Progress::Ready(5)));
    assert_eq!(f.i, 5);
}

#[test]
fn awaiting_past_the_limit_is_ready_at_once() {
    let mut f = Fut { i: 7 };
    assert!(matches!(f.awaiting(), Progress::Ready(7)));
    assert_eq!(f.i, 7);
}

#[test]
fn awaiting_from_three_waits_twice() {
    let mut f = Fut { i: 3 };
    assert!(!f.awaiting().is_ready());
    assert!(!f.awaiting().is_ready());
    assert!(matches!(f.awaiting(), Progress::Ready(5)));
}

#[derive(Debug, PartialEq)]
struct X {
    v: i32,
}

#[test]
fn test_fut() {
    let mut f = ReturnFuture::new(1);
    assert!(f.is_unpolled());
    assert!(matches!(f.poll(), Progress::Ready(1)));
    assert!(!f.is_unpolled());

    let mut f = ReturnFuture::new(X { v: 1 });
    match f.poll() {
        Progress::Ready(x) => assert_eq!(x, X { v: 1 }),
        Progress::Pending => panic!("a ReturnFuture is ready at once"),
    }
}

#[test]
fn test_z() {
    let f = ReturnFuture::new(());
    assert!(f.is_unpolled());
}

#[test]
fn test_cant_compile() {
    println!("--------- x1 ----------");
    let mut x1 = SelfRef::new(1);
    assert!(x1.recorded_location() != 0);
    println!("- x1.set_ptr()");
    x1.set_ptr();
    assert!(x1.is_same());
    println!("----- move variable");
    let x12 = x1;
    let _ = x12.is_same();
}

#[test]
fn http_connection_starts_empty_and_appends_reads() {
    let mut con = HttpConnection::new(());
    assert!(con.buffer.is_empty());
    assert!(con.can_record(b"hello "));
    con.record_read(b"hello ");
    con.record_read(b"world!");
    assert_eq!(&con.buffer[..], b"hello world!");
    *con.io_mut() = ();
    assert_eq!(&con.buffer[..], b"hello world!");
}

#[test]
fn connection_renames_itself_and_stays_pending() {
    let mut conn = Connection::new("abcde", 5u8);
    assert_eq!(conn.current_name(), "abcde");
    assert!(matches!(conn.poll(), Progress::Pending));
    assert_eq!(conn.current_name(), "abc");
    assert!(matches!(conn.poll(), Progress::Pending));
}

#[test]
fn self_ref_compares_with_its_record() {
    let r = SelfRef::new(7u64);
    let at = r.recorded_location();
    assert!(r.is_recorded_at(at));
    assert!(!r.is_recorded_at(at + 1));
    assert_eq!(*r.x(), 7);
}

#[test]
fn dispatcher_records_what_was_read() {
    let mut d = Dispatcher::new(0u8);
    assert_eq!(d.bytes_read(), 0);
    assert!(d.can_record(b"abcde"));
    assert_eq!(d.record_read(b"abcde"), 5);
    assert_eq!(d.record_read(b""), 0);
    assert_eq!(d.record_read(b"fg"), 2);
    assert_eq!(d.bytes_read(), 7);
    *d.io_mut() = 1;
    assert_eq!(d.bytes_read(), 7);
}
