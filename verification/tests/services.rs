use async_demos::channel::{consume_step, ConsumerStep, Producer, RecvFailure};
use async_demos::decimal::decimal_bytes;
use async_demos::fn_spec::{fi32, fn_, fn_mut_, fn_once_};
use async_demos::handler_service::{join_with_time, Base as TextBase, TimeWith};
use async_demos::impl_service::{Base, Sub};
use async_demos::reply::{Reply, ReplyBody};
use async_demos::stream_body::{count_frame_bytes, get_response};
use async_demos::stream_server::{hello, my_count};
use async_demos::target::{spin, Target};

fn text_of(r: &Reply) -> &str {
    match &r.body {
        ReplyBody::Text(s) => s.as_str(),
        ReplyBody::Counter(_) => panic!("expected a text body"),
    }
}

#[test]
fn calc_follows_the_sign_of_the_remainder() {
    let mut t = Target::new();
    assert_eq!(t.0, 0);
    assert_eq!(t.calc(1), -1);
    assert_eq!(t.calc(-1), 2);
    assert_eq!(t.calc(2), 3);
    assert_eq!(t.calc(3), 2);
    assert_eq!(t.0, 2);
    let mut u = Target(10);
    assert_eq!(u.calc(-7), 13);
    assert_eq!(u.calc(-8), 14);
}

#[test]
fn spin_settles_between_two_and_three() {
    assert_eq!(spin(0), 1);
    assert_eq!(spin(-4), 1);
    assert_eq!(spin(1), -1);
    assert_eq!(spin(2), 2);
    assert_eq!(spin(3), 3);
    assert_eq!(spin(1000), 2);
    assert_eq!(spin(1001), 3);
}

#[test]
fn decimal_spelling() {
    assert_eq!(decimal_bytes(0), b"0".to_vec());
    assert_eq!(decimal_bytes(7), b"7".to_vec());
    assert_eq!(decimal_bytes(10), b"10".to_vec());
    assert_eq!(decimal_bytes(1234567890), b"1234567890".to_vec());
    assert_eq!(decimal_bytes(usize::MAX), usize::MAX.to_string().into_bytes());
}

#[test]
fn frames_name_their_count() {
    assert_eq!(count_frame_bytes(0), b"count: 0\n".to_vec());
    assert_eq!(count_frame_bytes(42), b"count: 42\n".to_vec());
}

#[test]
fn body_sends_frames_only_after_a_second() {
    let mut body = get_response();
    assert_eq!(body.frames_sent(), 0);
    assert!(!body.is_end_stream());
    let now = std::time::Instant::now();
    assert_eq!(body.advance(now, 1_000_000_000), None);
    assert_eq!(body.frames_sent(), 0);
    assert_eq!(body.advance(now, 1_000_000_001), Some(b"count: 0\n".to_vec()));
    assert_eq!(body.frames_sent(), 1);
    assert_eq!(body.advance(now, 5_000_000_000), Some(b"count: 1\n".to_vec()));
    assert_eq!(body.advance(now, 0), None);
    assert_eq!(body.frames_sent(), 2);
}

#[test]
fn fresh_body_polled_at_once_sends_nothing() {
    let mut body = get_response();
    assert_eq!(body.poll_frame(), None);
    assert_eq!(body.frames_sent(), 0);
}

#[test]
fn api_path_streams_with_headers() {
    let r = my_count("/api");
    assert_eq!(r.status, 202);
    assert_eq!(r.headers.len(), 2);
    assert_eq!(r.headers[0].0, "Access-Control-Allow-Origin");
    assert_eq!(r.headers[0].1, "*");
    assert_eq!(r.headers[1].0, "Content-Type");
    assert_eq!(r.headers[1].1, "text/plain");
    match &r.body {
        ReplyBody::Counter(b) => assert_eq!(b.frames_sent(), 0),
        ReplyBody::Text(_) => panic!("expected the counting stream"),
    }
}

#[test]
fn other_paths_get_the_fixed_text() {
    for path in ["/", "/api/", "/ap", "/API", ""] {
        let r = my_count(path);
        assert_eq!(r.status, 200);
        assert!(r.headers.is_empty());
        assert_eq!(text_of(&r), "hello world boxed full");
    }
}

#[test]
fn hello_greets() {
    let r = hello();
    assert_eq!(r.status, 200);
    assert!(r.headers.is_empty());
    assert_eq!(text_of(&r), "Hello World!");
}

#[test]
fn sub_answers_as_its_base() {
    let base = Base {};
    let r = base.call();
    assert_eq!(r.status, 200);
    assert_eq!(text_of(&r), "abc");
    let sub = Sub::new(Base {});
    let r = sub.call();
    assert_eq!(r.status, 200);
    assert!(r.headers.is_empty());
    assert_eq!(text_of(&r), "abc");
}

#[test]
fn text_base_answers_with_its_text() {
    let base = TextBase::new(String::from("hello base"));
    let r = base.call();
    assert_eq!(r.status, 200);
    assert_eq!(text_of(&r), "hello base");
}

#[test]
fn time_with_quotes_the_inner_body() {
    let mut t = TimeWith::new(TextBase::new(String::from("hello base")), String::from("T0"));
    let inner = t.inner_mut().call();
    let body = text_of(&inner).as_bytes().to_vec();
    let r = t.rebuild(&body);
    assert_eq!(r.status, 200);
    assert!(r.headers.is_empty());
    assert_eq!(text_of(&r), "\"hello base\" with T0");
    let r = t.rebuild(b"a\"b\xff");
    assert_eq!(text_of(&r), "\"a\\\"b\u{fffd}\" with T0");
    assert_eq!(join_with_time("x", "y"), "x with y");
}

#[test]
fn producer_sends_one_to_ten() {
    let mut p = Producer::new();
    let mut sent = Vec::new();
    while let Some(m) = p.next_message() {
        sent.push(m);
    }
    assert_eq!(sent, (1..=10).collect::<Vec<u32>>());
    assert_eq!(p.next_message(), None);
}

#[test]
fn consumer_logs_values_and_stops_on_failure() {
    assert!(matches!(consume_step(Ok(3)), ConsumerStep::Log(3)));
    assert!(matches!(consume_step(Err(RecvFailure::Closed)), ConsumerStep::Stop(RecvFailure::Closed)));
    assert!(matches!(
        consume_step(Err(RecvFailure::Lagged(2))),
        ConsumerStep::Stop(RecvFailure::Lagged(2))
    ));
}

#[test]
fn closures_behave_by_kind() {
    assert_eq!(fi32(), 1);
    assert_eq!(fn_(), (1, 1));
    assert_eq!(fn_mut_(), (2, 3));
    assert_eq!(fn_once_(), 2);
}

#[test]
fn successive_frames_count_up_from_zero() {
    let mut body = get_response();
    let start = std::time::Instant::now();
    let mut sent = Vec::new();
    for k in 0..5u64 {
        if let Some(f) = body.advance(start, 2_000_000_000 + k as u128) {
            sent.push(f);
        }
        assert_eq!(body.advance(start, 10), None);
    }
    let expected: Vec<Vec<u8>> = (0..5).map(|k| format!("count: {}\n", k).into_bytes()).collect();
    assert_eq!(sent, expected);
    assert_eq!(body.frames_sent(), 5);
}
