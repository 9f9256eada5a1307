use std::sync::atomic::{AtomicUsize, Ordering};
use std::sync::Arc;

use bytes::Bytes;
use futures::executor::{spawn, Notify};
use futures::future::lazy;
use futures::Future;
use payload_stream::{
    Async, Inner, Payload, PayloadSender, PayloadStatus, PayloadWriter, Pool, MAX_BUFFER_SIZE,
};

#[derive(Debug, PartialEq, Clone)]
enum Failure {
    Incomplete,
    Overflow,
}

type Polled = Result<Async<Option<Bytes>>, Failure>;

fn chunk(text: &'static str) -> Bytes {
    Bytes::from(text)
}

fn ready(text: &'static str) -> Polled {
    Ok(Async::Ready(Some(chunk(text))))
}

struct Wakes(AtomicUsize);

impl Notify for Wakes {
    fn notify(&self, _id: usize) {
        self.0.fetch_add(1, Ordering::SeqCst);
    }
}

#[test]
fn test_unread_data() {
    lazy(|| {
        let mut pool: Pool<Failure> = Pool::new();
        let (_, mut payload) = Payload::create(&mut pool, false);

        payload.unread_data(&mut pool, Bytes::from("data"));
        assert!(!payload.is_empty(&pool));
        assert_eq!(payload.len(&pool), 4);

        assert_eq!(
            Async::Ready(Some(Bytes::from("data"))),
            payload.poll(&mut pool).ok().unwrap()
        );

        let res: Result<(), ()> = Ok(());
        res
    })
    .wait()
    .unwrap();
}

#[test]
fn fresh_stream_is_empty_and_wants_data() {
    let mut pool: Pool<Failure> = Pool::new();
    assert_eq!(pool.streams(), 0);
    let (tx, rx) = Payload::create(&mut pool, false);
    assert_eq!(pool.streams(), 1);
    assert!(rx.is_live(&pool));
    assert!(tx.is_live(&pool));
    assert!(rx.is_empty(&pool));
    assert_eq!(rx.len(&pool), 0);
    assert_eq!(tx.need_read(&mut pool), PayloadStatus::Read);
}

#[test]
fn chunks_come_out_in_the_order_fed() {
    let mut pool: Pool<Failure> = Pool::new();
    let (mut tx, mut rx) = Payload::create(&mut pool, false);
    tx.feed_data(&mut pool, chunk("one"));
    tx.feed_data(&mut pool, chunk("two"));
    tx.feed_data(&mut pool, chunk("three"));
    assert_eq!(rx.poll(&mut pool), ready("one"));
    assert_eq!(rx.poll(&mut pool), ready("two"));
    assert_eq!(rx.poll(&mut pool), ready("three"));
    assert_eq!(rx.poll(&mut pool), Ok(Async::NotReady));
}

#[test]
fn buffered_length_is_the_sum_of_the_queued_chunks() {
    let mut pool: Pool<Failure> = Pool::new();
    let (mut tx, mut rx) = Payload::create(&mut pool, false);
    tx.feed_data(&mut pool, chunk("abc"));
    assert_eq!(rx.len(&pool), 3);
    tx.feed_data(&mut pool, chunk("defgh"));
    assert_eq!(rx.len(&pool), 8);
    tx.feed_data(&mut pool, Bytes::new());
    assert_eq!(rx.len(&pool), 8);
    assert_eq!(rx.poll(&mut pool), ready("abc"));
    assert_eq!(rx.len(&pool), 5);
    rx.unread_data(&mut pool, chunk("bc"));
    assert_eq!(rx.len(&pool), 7);
    assert_eq!(rx.poll(&mut pool), ready("bc"));
    assert_eq!(rx.poll(&mut pool), ready("defgh"));
    assert_eq!(rx.len(&pool), 0);
    assert_eq!(rx.poll(&mut pool), Ok(Async::Ready(Some(Bytes::new()))));
    assert!(rx.is_empty(&pool));
}

#[test]
fn producer_pauses_at_capacity_and_reads_below_it() {
    let mut pool: Pool<Failure> = Pool::new();
    let (mut tx, mut rx) = Payload::create(&mut pool, false);
    rx.set_read_buffer_capacity(&mut pool, 8);
    tx.feed_data(&mut pool, chunk("abcd"));
    assert_eq!(tx.need_read(&mut pool), PayloadStatus::Read);
    tx.feed_data(&mut pool, chunk("efg"));
    assert_eq!(tx.need_read(&mut pool), PayloadStatus::Read);
    tx.feed_data(&mut pool, chunk("h"));
    assert_eq!(rx.len(&pool), 8);
    assert_eq!(tx.need_read(&mut pool), PayloadStatus::Pause);
    tx.feed_data(&mut pool, chunk("ij"));
    assert_eq!(tx.need_read(&mut pool), PayloadStatus::Pause);
    assert_eq!(rx.poll(&mut pool), ready("abcd"));
    assert_eq!(rx.len(&pool), 6);
    assert_eq!(tx.need_read(&mut pool), PayloadStatus::Read);
}

#[test]
fn default_capacity_is_32_kib() {
    assert_eq!(MAX_BUFFER_SIZE, 32_768);
    let mut pool: Pool<Failure> = Pool::new();
    let (mut tx, rx) = Payload::create(&mut pool, false);
    tx.feed_data(&mut pool, Bytes::from(vec![7u8; 32_767]));
    assert_eq!(rx.len(&pool), 32_767);
    assert_eq!(tx.need_read(&mut pool), PayloadStatus::Read);
    tx.feed_data(&mut pool, Bytes::from(vec![7u8; 1]));
    assert_eq!(rx.len(&pool), 32_768);
    assert_eq!(tx.need_read(&mut pool), PayloadStatus::Pause);
}

#[test]
fn put_back_does_not_recompute_the_wish_for_data() {
    let mut pool: Pool<Failure> = Pool::new();
    let (tx, mut rx) = Payload::create(&mut pool, false);
    rx.set_read_buffer_capacity(&mut pool, 2);
    rx.unread_data(&mut pool, chunk("abcdef"));
    assert_eq!(rx.len(&pool), 6);
    assert_eq!(tx.need_read(&mut pool), PayloadStatus::Read);
}

#[test]
fn capacity_change_shows_at_the_next_feed() {
    let mut pool: Pool<Failure> = Pool::new();
    let (mut tx, mut rx) = Payload::create(&mut pool, false);
    tx.feed_data(&mut pool, chunk("abcd"));
    rx.set_read_buffer_capacity(&mut pool, 4);
    assert_eq!(tx.need_read(&mut pool), PayloadStatus::Read);
    tx.feed_data(&mut pool, Bytes::new());
    assert_eq!(tx.need_read(&mut pool), PayloadStatus::Pause);
}

#[test]
fn zero_capacity_always_pauses_after_a_feed() {
    let mut pool: Pool<Failure> = Pool::new();
    let (mut tx, mut rx) = Payload::create(&mut pool, false);
    rx.set_read_buffer_capacity(&mut pool, 0);
    tx.feed_data(&mut pool, Bytes::new());
    assert_eq!(tx.need_read(&mut pool), PayloadStatus::Pause);
    assert_eq!(rx.poll(&mut pool), Ok(Async::Ready(Some(Bytes::new()))));
    assert_eq!(tx.need_read(&mut pool), PayloadStatus::Pause);
    assert_eq!(rx.poll(&mut pool), Ok(Async::NotReady));
    assert_eq!(tx.need_read(&mut pool), PayloadStatus::Read);
}

#[test]
fn error_comes_after_the_buffered_chunk_and_once() {
    let mut pool: Pool<Failure> = Pool::new();
    let (mut tx, mut rx) = Payload::create(&mut pool, false);
    tx.feed_data(&mut pool, chunk("c1"));
    tx.set_error(&mut pool, Failure::Incomplete);
    assert_eq!(rx.poll(&mut pool), ready("c1"));
    assert_eq!(rx.poll(&mut pool), Err(Failure::Incomplete));
    assert_eq!(rx.poll(&mut pool), Ok(Async::NotReady));
    tx.feed_eof(&mut pool);
    assert_eq!(rx.poll(&mut pool), Ok(Async::Ready(None)));
    assert_eq!(rx.poll(&mut pool), Ok(Async::Ready(None)));
}

#[test]
fn error_on_an_ended_stream_is_followed_by_the_end() {
    let mut pool: Pool<Failure> = Pool::new();
    let (mut tx, mut rx) = Payload::create(&mut pool, true);
    tx.feed_data(&mut pool, chunk("c1"));
    tx.set_error(&mut pool, Failure::Overflow);
    assert_eq!(rx.poll(&mut pool), ready("c1"));
    assert_eq!(rx.poll(&mut pool), Err(Failure::Overflow));
    assert_eq!(rx.poll(&mut pool), Ok(Async::Ready(None)));
    assert_eq!(rx.poll(&mut pool), Ok(Async::Ready(None)));
}

#[test]
fn later_error_replaces_an_earlier_one() {
    let mut pool: Pool<Failure> = Pool::new();
    let (mut tx, mut rx) = Payload::create(&mut pool, false);
    tx.set_error(&mut pool, Failure::Incomplete);
    tx.set_error(&mut pool, Failure::Overflow);
    assert_eq!(rx.poll(&mut pool), Err(Failure::Overflow));
    assert_eq!(rx.poll(&mut pool), Ok(Async::NotReady));
}

#[test]
fn error_is_delivered_before_the_end() {
    let mut pool: Pool<Failure> = Pool::new();
    let (mut tx, mut rx) = Payload::create(&mut pool, false);
    tx.feed_eof(&mut pool);
    tx.set_error(&mut pool, Failure::Incomplete);
    assert_eq!(rx.poll(&mut pool), Err(Failure::Incomplete));
    assert_eq!(rx.poll(&mut pool), Ok(Async::Ready(None)));
}

#[test]
fn put_back_round_trip() {
    let mut pool: Pool<Failure> = Pool::new();
    let (mut tx, mut rx) = Payload::create(&mut pool, false);
    tx.feed_data(&mut pool, chunk("head"));
    tx.feed_data(&mut pool, chunk("tail"));
    let before = rx.len(&pool);
    let got = rx.poll(&mut pool).ok().unwrap();
    assert_eq!(got, Async::Ready(Some(chunk("head"))));
    assert_eq!(rx.len(&pool), 4);
    rx.unread_data(&mut pool, chunk("head"));
    assert_eq!(rx.len(&pool), before);
    assert_eq!(rx.poll(&mut pool), ready("head"));
    assert_eq!(rx.poll(&mut pool), ready("tail"));
}

#[test]
fn put_back_chunk_comes_before_chunks_fed_later() {
    let mut pool: Pool<Failure> = Pool::new();
    let (mut tx, mut rx) = Payload::create(&mut pool, false);
    tx.feed_data(&mut pool, chunk("a"));
    rx.unread_data(&mut pool, chunk("front"));
    tx.feed_data(&mut pool, chunk("b"));
    assert_eq!(rx.poll(&mut pool), ready("front"));
    assert_eq!(rx.poll(&mut pool), ready("a"));
    assert_eq!(rx.poll(&mut pool), ready("b"));
}

#[test]
fn producer_finds_the_stream_dropped() {
    let mut pool: Pool<Failure> = Pool::new();
    let (mut tx, rx) = Payload::create(&mut pool, false);
    tx.feed_data(&mut pool, chunk("lost"));
    rx.release(&mut pool);
    assert!(!tx.is_live(&pool));
    assert_eq!(tx.need_read(&mut pool), PayloadStatus::Dropped);
    tx.feed_data(&mut pool, chunk("more"));
    tx.feed_eof(&mut pool);
    tx.set_error(&mut pool, Failure::Incomplete);
    assert_eq!(tx.need_read(&mut pool), PayloadStatus::Dropped);
    assert_eq!(tx.need_read_with(&mut pool, None), PayloadStatus::Dropped);
    assert_eq!(pool.streams(), 1);
}

#[test]
fn stream_lives_until_the_last_consumer_handle_goes() {
    let mut pool: Pool<Failure> = Pool::new();
    let (mut tx, rx) = Payload::create(&mut pool, false);
    let mut twin = rx.share(&mut pool);
    tx.feed_data(&mut pool, chunk("shared"));
    assert_eq!(twin.len(&pool), 6);
    rx.release(&mut pool);
    assert!(twin.is_live(&pool));
    assert_eq!(tx.need_read(&mut pool), PayloadStatus::Read);
    assert_eq!(twin.poll(&mut pool), ready("shared"));
    twin.release(&mut pool);
    assert_eq!(tx.need_read(&mut pool), PayloadStatus::Dropped);
}

#[test]
fn streams_of_one_pool_do_not_touch_each_other() {
    let mut pool: Pool<Failure> = Pool::new();
    let (mut tx_a, mut rx_a) = Payload::create(&mut pool, false);
    let (mut tx_b, mut rx_b) = Payload::create(&mut pool, false);
    tx_a.feed_data(&mut pool, chunk("for a"));
    tx_b.feed_data(&mut pool, chunk("b"));
    rx_a.release(&mut pool);
    let (_tx_c, rx_c) = Payload::create(&mut pool, true);
    assert_eq!(pool.streams(), 3);
    assert_eq!(tx_a.need_read(&mut pool), PayloadStatus::Dropped);
    tx_a.feed_data(&mut pool, chunk("gone"));
    assert_eq!(rx_b.len(&pool), 1);
    assert_eq!(rx_c.len(&pool), 0);
    assert_eq!(rx_b.poll(&mut pool), ready("b"));
}

#[test]
fn end_of_stream_is_terminal() {
    let mut pool: Pool<Failure> = Pool::new();
    let (mut tx, mut rx) = Payload::create(&mut pool, false);
    assert_eq!(rx.poll(&mut pool), Ok(Async::NotReady));
    tx.feed_eof(&mut pool);
    assert_eq!(rx.poll(&mut pool), Ok(Async::Ready(None)));
    tx.feed_eof(&mut pool);
    tx.feed_eof(&mut pool);
    assert_eq!(rx.poll(&mut pool), Ok(Async::Ready(None)));
    assert_eq!(rx.poll(&mut pool), Ok(Async::Ready(None)));
}

#[test]
fn chunks_fed_before_the_end_are_still_delivered() {
    let mut pool: Pool<Failure> = Pool::new();
    let (mut tx, mut rx) = Payload::create(&mut pool, false);
    tx.feed_data(&mut pool, chunk("last"));
    tx.feed_eof(&mut pool);
    assert_eq!(rx.poll(&mut pool), ready("last"));
    assert_eq!(rx.poll(&mut pool), Ok(Async::Ready(None)));
}

#[test]
fn empty_payload_has_ended() {
    let mut pool: Pool<Failure> = Pool::new();
    let mut rx = Payload::empty(&mut pool);
    assert!(rx.is_empty(&pool));
    assert_eq!(rx.poll(&mut pool), Ok(Async::Ready(None)));
}

#[test]
fn created_ended_stream_reports_the_end() {
    let mut pool: Pool<Failure> = Pool::new();
    let (_tx, mut rx) = Payload::create(&mut pool, true);
    assert_eq!(rx.poll(&mut pool), Ok(Async::Ready(None)));
}

#[test]
fn feed_fires_the_parked_consumer_once() {
    let wakes = Arc::new(Wakes(AtomicUsize::new(0)));
    let mut pool: Pool<Failure> = Pool::new();
    let (mut tx, mut rx) = Payload::create(&mut pool, false);
    {
        let mut task = spawn(lazy(|| {
            assert_eq!(rx.poll(&mut pool), Ok(Async::NotReady));
            assert_eq!(rx.poll(&mut pool), Ok(Async::NotReady));
            let res: Result<(), ()> = Ok(());
            res
        }));
        assert_eq!(task.poll_future_notify(&wakes, 0), Ok(futures::Async::Ready(())));
    }
    assert_eq!(wakes.0.load(Ordering::SeqCst), 0);
    tx.feed_data(&mut pool, chunk("wake up"));
    assert_eq!(wakes.0.load(Ordering::SeqCst), 1);
    tx.feed_data(&mut pool, chunk("again"));
    assert_eq!(wakes.0.load(Ordering::SeqCst), 1);
}

#[test]
fn drain_fires_the_paused_producer_once() {
    let wakes = Arc::new(Wakes(AtomicUsize::new(0)));
    let mut pool: Pool<Failure> = Pool::new();
    let (mut tx, mut rx) = Payload::create(&mut pool, false);
    rx.set_read_buffer_capacity(&mut pool, 1);
    tx.feed_data(&mut pool, chunk("full"));
    tx.feed_data(&mut pool, chunk("er"));
    {
        let mut task = spawn(lazy(|| {
            assert_eq!(tx.need_read(&mut pool), PayloadStatus::Pause);
            assert_eq!(tx.need_read(&mut pool), PayloadStatus::Pause);
            let res: Result<(), ()> = Ok(());
            res
        }));
        assert_eq!(task.poll_future_notify(&wakes, 0), Ok(futures::Async::Ready(())));
    }
    assert_eq!(wakes.0.load(Ordering::SeqCst), 0);
    assert_eq!(rx.poll(&mut pool), ready("full"));
    assert_eq!(wakes.0.load(Ordering::SeqCst), 1);
    assert_eq!(rx.poll(&mut pool), ready("er"));
    assert_eq!(wakes.0.load(Ordering::SeqCst), 1);
}

#[test]
fn put_back_fires_no_wake() {
    let wakes = Arc::new(Wakes(AtomicUsize::new(0)));
    let mut pool: Pool<Failure> = Pool::new();
    let (_tx, mut rx) = Payload::create(&mut pool, false);
    {
        let mut task = spawn(lazy(|| {
            assert_eq!(rx.poll(&mut pool), Ok(Async::NotReady));
            let res: Result<(), ()> = Ok(());
            res
        }));
        assert_eq!(task.poll_future_notify(&wakes, 0), Ok(futures::Async::Ready(())));
    }
    rx.unread_data(&mut pool, chunk("back"));
    assert_eq!(wakes.0.load(Ordering::SeqCst), 0);
}

#[test]
fn empty_poll_nudges_the_paused_producer() {
    let wakes = Arc::new(Wakes(AtomicUsize::new(0)));
    let mut pool: Pool<Failure> = Pool::new();
    let (tx, mut rx) = Payload::create(&mut pool, false);
    rx.set_read_buffer_capacity(&mut pool, 0);
    rx.unread_data(&mut pool, Bytes::new());
    assert_eq!(rx.poll(&mut pool), Ok(Async::Ready(Some(Bytes::new()))));
    {
        let mut task = spawn(lazy(|| {
            assert_eq!(tx.need_read(&mut pool), PayloadStatus::Pause);
            let res: Result<(), ()> = Ok(());
            res
        }));
        assert_eq!(task.poll_future_notify(&wakes, 0), Ok(futures::Async::Ready(())));
    }
    assert_eq!(rx.poll(&mut pool), Ok(Async::NotReady));
    assert_eq!(wakes.0.load(Ordering::SeqCst), 1);
    assert_eq!(tx.need_read(&mut pool), PayloadStatus::Read);
}

#[test]
fn shared_state_alone_follows_the_same_rules() {
    let mut state: Inner<Failure> = Inner::new(false);
    assert_eq!(state.len(), 0);
    assert_eq!(state.capacity(), 32_768);
    state.set_capacity(3);
    assert_eq!(state.capacity(), 3);
    assert_eq!(state.need_read_with(None), PayloadStatus::Read);
    state.feed_data(chunk("ab"));
    assert_eq!(state.need_read(), PayloadStatus::Read);
    state.feed_data(chunk("c"));
    assert_eq!(state.len(), 3);
    assert_eq!(state.need_read(), PayloadStatus::Pause);
    state.unread_data(chunk("z"));
    assert_eq!(state.len(), 4);
    state.set_error(Failure::Overflow);
    assert_eq!(state.readany_with(None), ready("z"));
    assert_eq!(state.readany(), ready("ab"));
    assert_eq!(state.need_read(), PayloadStatus::Read);
    assert_eq!(state.readany(), ready("c"));
    assert_eq!(state.readany(), Err(Failure::Overflow));
    assert_eq!(state.readany(), Ok(Async::NotReady));
    state.feed_eof();
    assert_eq!(state.readany(), Ok(Async::Ready(None)));
}

fn drive<W: PayloadWriter<Failure>>(writer: &mut W, pool: &mut Pool<Failure>) -> PayloadStatus {
    writer.feed_data(pool, Bytes::from("via trait"));
    writer.feed_eof(pool);
    writer.need_read(pool)
}

#[test]
fn sender_is_usable_through_the_writer_interface() {
    let mut pool: Pool<Failure> = Pool::new();
    let (mut tx, mut rx) = Payload::create(&mut pool, false);
    let sender: &mut PayloadSender = &mut tx;
    assert_eq!(drive(sender, &mut pool), PayloadStatus::Read);
    assert_eq!(rx.poll(&mut pool), ready("via trait"));
    assert_eq!(rx.poll(&mut pool), Ok(Async::Ready(None)));
}
