//! The mathematical model of a chunk queue.
use vstd::prelude::*;
use futures::task::Task;

verus! {

/// The number of bytes in a queue of chunks: the sum of the chunks' lengths.
pub open spec fn total_len(chunks: Seq<Seq<u8>>) -> nat
    decreases chunks.len(),
{
    if chunks.len() == 0 {
        0
    } else {
        total_len(chunks.drop_last()) + chunks.last().len()
    }
}

/// Appending a chunk adds its length to the total.
pub proof fn lemma_total_len_push(chunks: Seq<Seq<u8>>, chunk: Seq<u8>)
    ensures
        total_len(chunks.push(chunk)) == total_len(chunks) + chunk.len(),
{
    assert(chunks.push(chunk).drop_last() =~= chunks);
}

/// Putting a chunk in front adds its length to the total.
pub proof fn lemma_total_len_push_front(chunks: Seq<Seq<u8>>, chunk: Seq<u8>)
    ensures
        total_len(seq![chunk] + chunks) == total_len(chunks) + chunk.len(),
    decreases chunks.len(),
{
    if chunks.len() == 0 {
        assert(seq![chunk] + chunks =~= Seq::<Seq<u8>>::empty().push(chunk));
        lemma_total_len_push(Seq::<Seq<u8>>::empty(), chunk);
    } else {
        let whole = seq![chunk] + chunks;
        lemma_total_len_push_front(chunks.drop_last(), chunk);
        assert(whole.drop_last() =~= seq![chunk] + chunks.drop_last());
        assert(whole.last() == chunks.last());
    }
}

/// Taking the front chunk away takes its length from the total.
pub proof fn lemma_total_len_pop_front(chunks: Seq<Seq<u8>>)
    requires
        chunks.len() > 0,
    ensures
        total_len(chunks) == chunks[0].len() + total_len(chunks.subrange(1, chunks.len() as int)),
{
    let rest = chunks.subrange(1, chunks.len() as int);
    assert(seq![chunks[0]] + rest =~= chunks);
    lemma_total_len_push_front(rest, chunks[0]);
}

/// What one poll of the consumer gives: a value, or word that none is there yet.
#[derive(Debug, PartialEq, Eq)]
pub enum Async<T> {
    /// A value is there.
    Ready(T),
    /// Nothing is there yet; the consumer is to wait for a wake.
    NotReady,
}

/// What the producer is told when it asks whether to go on reading.
#[derive(Debug, PartialEq, Eq)]
pub enum PayloadStatus {
    /// The consumer wants data: read on and feed.
    Read,
    /// The buffer is at or over its capacity: wait until it has drained.
    Pause,
    /// No consumer is left: stop reading.
    Dropped,
}

/// The outcome of a poll as contracts see it: a chunk by its bytes
/// (`None` once the stream has ended), not ready, or the error.
pub type PollView<E> = Result<Async<Option<Seq<u8>>>, E>;

/// The shared stream state as contracts see it.
pub struct StreamView<E> {
    /// The buffered chunks, front first, each by its bytes.
    pub chunks: Seq<Seq<u8>>,
    /// The byte threshold at which the producer is told to pause.
    pub capacity: nat,
    /// Whether the end of the stream was fed.
    pub eof: bool,
    /// The error that waits for the consumer, if any.
    pub error: Option<E>,
    /// Whether the consumer wants more data.
    pub need_read: bool,
    /// The wake handle that the consumer has registered, if any.
    pub reader_wake: Option<Task>,
    /// The wake handle that the producer has registered, if any.
    pub writer_wake: Option<Task>,
}

impl<E> StreamView<E> {
    /// A fresh stream: nothing buffered, nothing registered.
    pub open spec fn fresh(eof: bool, capacity: nat) -> Self {
        StreamView {
            chunks: Seq::empty(),
            capacity,
            eof,
            error: None,
            need_read: true,
            reader_wake: None,
            writer_wake: None,
        }
    }

    /// The number of bytes buffered.
    pub open spec fn buffered(self) -> nat {
        total_len(self.chunks)
    }

    /// After a chunk was fed: it stands last, the wish for data is recomputed,
    /// and the consumer's wake handle has been fired and is gone.
    pub open spec fn fed(self, chunk: Seq<u8>) -> Self {
        StreamView {
            chunks: self.chunks.push(chunk),
            need_read: self.buffered() + chunk.len() < self.capacity,
            reader_wake: None,
            ..self
        }
    }

    /// After the end of the stream was fed.
    pub open spec fn ended(self) -> Self {
        StreamView { eof: true, ..self }
    }

    /// After an error was set: it replaces one that still waited.
    pub open spec fn failed(self, err: E) -> Self {
        StreamView { error: Some(err), ..self }
    }

    /// After a chunk was put back: it stands first, and nothing else changes.
    pub open spec fn unread(self, chunk: Seq<u8>) -> Self {
        StreamView { chunks: seq![chunk] + self.chunks, ..self }
    }

    /// After the capacity was set.
    pub open spec fn with_capacity(self, capacity: nat) -> Self {
        StreamView { capacity, ..self }
    }

    /// What is left when the front chunk is taken.
    pub open spec fn rest(self) -> Seq<Seq<u8>> {
        self.chunks.subrange(1, self.chunks.len() as int)
    }

    /// The consumer's registration after `waker` was offered: a handle that
    /// is registered already is kept.
    pub open spec fn reader_kept(self, waker: Option<Task>) -> Option<Task> {
        if self.reader_wake is None {
            waker
        } else {
            self.reader_wake
        }
    }

    /// One poll of the consumer: the state after it and what it yields.
    /// `waker` is the wake handle of the caller's task, `None` where none
    /// could be had.
    ///
    /// A buffered chunk comes first; then a waiting error, which is consumed;
    /// then the end of the stream; otherwise the consumer is parked. Taking a
    /// chunk and parking both fire the producer's wake handle, which is then
    /// gone.
    pub open spec fn polled(self, waker: Option<Task>) -> (Self, PollView<E>) {
        if self.chunks.len() > 0 {
            let need_read = total_len(self.rest()) < self.capacity;
            (
                StreamView {
                    chunks: self.rest(),
                    need_read,
                    reader_wake: if need_read && !self.eof {
                        self.reader_kept(waker)
                    } else {
                        self.reader_wake
                    },
                    writer_wake: None,
                    ..self
                },
                Ok(Async::Ready(Some(self.chunks[0]))),
            )
        } else if let Some(err) = self.error {
            (StreamView { error: None, ..self }, Err(err))
        } else if self.eof {
            (self, Ok(Async::Ready(None)))
        } else {
            (
                StreamView {
                    need_read: true,
                    reader_wake: self.reader_kept(waker),
                    writer_wake: None,
                    ..self
                },
                Ok(Async::NotReady),
            )
        }
    }

    /// After the chunks of `chunks` were fed one by one, first to last.
    pub open spec fn fed_all(self, chunks: Seq<Seq<u8>>) -> Self
        decreases chunks.len(),
    {
        if chunks.len() == 0 {
            self
        } else {
            self.fed_all(chunks.drop_last()).fed(chunks.last())
        }
    }

    /// After one poll for each entry of `wakers`, first to last; each entry
    /// is the wake handle that was offered at that poll.
    pub open spec fn drained(self, wakers: Seq<Option<Task>>) -> Self
        decreases wakers.len(),
    {
        if wakers.len() == 0 {
            self
        } else {
            self.drained(wakers.drop_last()).polled(wakers.last()).0
        }
    }

    /// The producer's question whether to go on: the state after it and the
    /// answer. A pause registers the producer's wake handle `waker` unless
    /// one is registered already, which is kept.
    pub open spec fn asked(self, waker: Option<Task>) -> (Self, PayloadStatus) {
        if self.need_read {
            (self, PayloadStatus::Read)
        } else {
            (
                StreamView {
                    writer_wake: if self.writer_wake is None {
                        waker
                    } else {
                        self.writer_wake
                    },
                    ..self
                },
                PayloadStatus::Pause,
            )
        }
    }
}

} // verus!
