//! What holds of the stream over several operations, proved of the model
//! that the operations' contracts are stated in.
use vstd::prelude::*;
use futures::task::Task;
use crate::model::{total_len, lemma_total_len_push, lemma_total_len_push_front,
    lemma_total_len_pop_front, Async, PayloadStatus, StreamView};
use crate::payload::{asked_in, without_reader, SlotView};

verus! {

/// Feeding appends: after the chunks of `fed` were fed, the queue is what it
/// was, followed by `fed` in the order of feeding.
pub proof fn lemma_feed_appends<E>(s: StreamView<E>, fed: Seq<Seq<u8>>)
    ensures
        s.fed_all(fed).chunks == s.chunks + fed,
        s.fed_all(fed).eof == s.eof,
        s.fed_all(fed).error == s.error,
        s.fed_all(fed).capacity == s.capacity,
    decreases fed.len(),
{
    if fed.len() == 0 {
        assert(s.chunks + fed =~= s.chunks);
    } else {
        lemma_feed_appends(s, fed.drop_last());
        assert((s.chunks + fed.drop_last()).push(fed.last()) =~= s.chunks + fed);
    }
}

/// Polling drains from the front: after `wakers.len()` polls of a queue that
/// holds at least as many chunks, the chunks behind them are left, and the
/// end mark, the error and the capacity are untouched.
pub proof fn lemma_drain_takes_front<E>(s: StreamView<E>, wakers: Seq<Option<Task>>)
    requires
        wakers.len() <= s.chunks.len(),
    ensures
        s.drained(wakers).chunks == s.chunks.subrange(wakers.len() as int, s.chunks.len() as int),
        s.drained(wakers).eof == s.eof,
        s.drained(wakers).error == s.error,
        s.drained(wakers).capacity == s.capacity,
    decreases wakers.len(),
{
    if wakers.len() == 0 {
        assert(s.chunks.subrange(0, s.chunks.len() as int) =~= s.chunks);
    } else {
        lemma_drain_takes_front(s, wakers.drop_last());
        let before = s.drained(wakers.drop_last());
        assert(before.rest() =~= s.chunks.subrange(wakers.len() as int, s.chunks.len() as int));
    }
}

/// Order preservation: chunks fed into an empty queue come out of successive
/// polls in the order in which they were fed. The poll after `wakers.len()`
/// earlier ones yields the chunk at that place of `fed`, whatever wake
/// handles were offered.
pub proof fn lemma_order_preserved<E>(
    s: StreamView<E>,
    fed: Seq<Seq<u8>>,
    wakers: Seq<Option<Task>>,
    waker: Option<Task>,
)
    requires
        s.chunks.len() == 0,
        wakers.len() < fed.len(),
    ensures
        s.fed_all(fed).drained(wakers).polled(waker).1 == Ok::<Async<Option<Seq<u8>>>, E>(
            Async::Ready(Some(fed[wakers.len() as int])),
        ),
{
    lemma_feed_appends(s, fed);
    assert(s.chunks + fed =~= fed);
    lemma_drain_takes_front(s.fed_all(fed), wakers);
}

/// Length invariant: a feed and a put-back add the chunk's length to the
/// buffered length, and a poll that yields a chunk takes that chunk's length
/// from it; a poll that yields none leaves it.
pub proof fn lemma_buffered_len<E>(s: StreamView<E>, chunk: Seq<u8>, waker: Option<Task>)
    ensures
        s.fed(chunk).buffered() == s.buffered() + chunk.len(),
        s.unread(chunk).buffered() == s.buffered() + chunk.len(),
        s.chunks.len() > 0 ==> s.polled(waker).0.buffered() + s.chunks[0].len() == s.buffered(),
        s.chunks.len() == 0 ==> s.polled(waker).0.buffered() == s.buffered(),
        s.ended().buffered() == s.buffered(),
{
    lemma_total_len_push(s.chunks, chunk);
    lemma_total_len_push_front(s.chunks, chunk);
    if s.chunks.len() > 0 {
        lemma_total_len_pop_front(s.chunks);
    }
}

/// The wish for data is never stale: right after a feed, and right after a
/// poll that yields a chunk, the consumer wants data exactly if less than the
/// capacity is buffered.
pub proof fn lemma_need_read_fresh<E>(s: StreamView<E>, chunk: Seq<u8>, waker: Option<Task>)
    ensures
        s.fed(chunk).need_read == (s.fed(chunk).buffered() < s.capacity),
        s.chunks.len() > 0 ==> s.polled(waker).0.need_read == (s.polled(waker).0.buffered()
            < s.capacity),
{
    lemma_total_len_push(s.chunks, chunk);
}

/// Backpressure threshold: once feeding has brought the buffered length to
/// the capacity or over it, the producer is told to pause; once polling has
/// brought it under the capacity, the producer is told to read.
pub proof fn lemma_backpressure_threshold<E>(
    s: StreamView<E>,
    fed: Seq<Seq<u8>>,
    waker: Option<Task>,
    asking: Option<Task>,
)
    ensures
        fed.len() > 0 && s.fed_all(fed).buffered() >= s.capacity ==> s.fed_all(fed).asked(
            asking,
        ).1 == PayloadStatus::Pause,
        fed.len() > 0 && s.fed_all(fed).buffered() < s.capacity ==> s.fed_all(fed).asked(
            asking,
        ).1 == PayloadStatus::Read,
        s.chunks.len() > 0 && s.polled(waker).0.buffered() < s.capacity ==> s.polled(
            waker,
        ).0.asked(asking).1 == PayloadStatus::Read,
        s.chunks.len() > 0 && s.polled(waker).0.buffered() >= s.capacity ==> s.polled(
            waker,
        ).0.asked(asking).1 == PayloadStatus::Pause,
{
    if fed.len() > 0 {
        let before = s.fed_all(fed.drop_last());
        lemma_feed_appends(s, fed.drop_last());
        lemma_need_read_fresh(before, fed.last(), waker);
    }
}

/// Error after drain: with one chunk buffered and an error set after it, the
/// first poll yields the chunk, the second the error, and every later poll
/// yields neither a chunk nor an error: the end of the stream where the end
/// was fed, and not ready where it was not.
pub proof fn lemma_error_after_drain<E>(
    s: StreamView<E>,
    chunk: Seq<u8>,
    err: E,
    wakers: Seq<Option<Task>>,
    waker: Option<Task>,
)
    requires
        s.chunks.len() == 0,
        wakers.len() >= 2,
    ensures
        s.fed(chunk).failed(err).polled(waker).1 == Ok::<Async<Option<Seq<u8>>>, E>(
            Async::Ready(Some(chunk)),
        ),
        s.fed(chunk).failed(err).polled(wakers[0]).0.polled(waker).1 == Err::<
            Async<Option<Seq<u8>>>,
            E,
        >(err),
        s.fed(chunk).failed(err).drained(wakers).polled(waker).1 == if s.eof {
            Ok::<Async<Option<Seq<u8>>>, E>(Async::Ready(None))
        } else {
            Ok::<Async<Option<Seq<u8>>>, E>(Async::NotReady)
        },
{
    let start = s.fed(chunk).failed(err);
    assert(start.chunks =~= seq![chunk]);
    assert(start.rest() =~= Seq::<Seq<u8>>::empty());
    lemma_spent_stays_spent(start, wakers);
}

/// Once the queue is empty and no error waits, polls yield no chunk and no
/// error whatever their number; and after two polls of a queue of one chunk
/// with an error behind it, that is the case.
proof fn lemma_spent_stays_spent<E>(start: StreamView<E>, wakers: Seq<Option<Task>>)
    requires
        start.chunks.len() == 1,
        start.error is Some,
        wakers.len() >= 2,
    ensures
        start.drained(wakers).chunks.len() == 0,
        start.drained(wakers).error is None,
        start.drained(wakers).eof == start.eof,
    decreases wakers.len(),
{
    assert(start.rest() =~= Seq::<Seq<u8>>::empty());
    if wakers.len() == 2 {
        let one = wakers.drop_last();
        assert(one.drop_last().len() == 0);
        assert(start.drained(one.drop_last()) == start);
        assert(start.drained(one) == start.polled(one.last()).0);
    } else {
        lemma_spent_stays_spent(start, wakers.drop_last());
    }
}

/// Put-back round trip: when a poll has yielded a chunk and the chunk is put
/// back, the queue and the buffered length are what they were before the
/// poll, and the next poll yields the same chunk.
pub proof fn lemma_put_back_round_trip<E>(s: StreamView<E>, first: Option<Task>, second: Option<Task>)
    requires
        s.chunks.len() > 0,
    ensures
        s.polled(first).1 == Ok::<Async<Option<Seq<u8>>>, E>(Async::Ready(Some(s.chunks[0]))),
        s.polled(first).0.unread(s.chunks[0]).chunks == s.chunks,
        s.polled(first).0.unread(s.chunks[0]).buffered() == s.buffered(),
        s.polled(first).0.unread(s.chunks[0]).polled(second).1 == s.polled(first).1,
{
    assert(seq![s.chunks[0]] + s.rest() =~= s.chunks);
}

/// Dropped propagation: when the last consumer handle on a stream is given
/// up, the stream's state is gone, which is where every feeding operation of
/// the producer's handle leaves the pool as it is; and the producer, when it
/// asks, is told that the stream was dropped. The other streams are untouched.
pub proof fn lemma_last_release_drops<E>(pool: Seq<SlotView<E>>, id: usize, waker: Option<Task>)
    requires
        id < pool.len(),
        pool[id as int].readers == 1,
    ensures
        without_reader(pool, id).len() == pool.len(),
        without_reader(pool, id)[id as int].state is None,
        without_reader(pool, id)[id as int].readers == 0,
        asked_in(without_reader(pool, id), id, waker) == (
            without_reader(pool, id),
            PayloadStatus::Dropped,
        ),
        forall|other: int|
            0 <= other < pool.len() && other != id ==> without_reader(pool, id)[other]
                == pool[other],
{
}

/// End-of-stream terminality: once the end was fed, with nothing buffered and
/// no error waiting, every poll reports the end and changes nothing, however
/// many polls or further end marks came before it.
pub proof fn lemma_eof_terminal<E>(s: StreamView<E>, wakers: Seq<Option<Task>>, waker: Option<Task>)
    requires
        s.chunks.len() == 0,
        s.error is None,
    ensures
        s.ended().ended() == s.ended(),
        s.ended().drained(wakers) == s.ended(),
        s.ended().polled(waker) == (
            s.ended(),
            Ok::<Async<Option<Seq<u8>>>, E>(Async::Ready(None)),
        ),
    decreases wakers.len(),
{
    if wakers.len() > 0 {
        lemma_eof_terminal(s, wakers.drop_last(), waker);
    }
}

} // verus!
