//! The shared stream state: the chunk queue with its byte count, the
//! backpressure threshold, the end and error marks, and both wake handles.
use vstd::prelude::*;
use std::collections::VecDeque;
use bytes::Bytes;
use futures::task::Task;
use crate::chunk::chunk_bytes;
use crate::model::{total_len, lemma_total_len_push, lemma_total_len_push_front,
    lemma_total_len_pop_front, Async, PayloadStatus, PollView, StreamView};
use crate::wake::{current_task, notify};

verus! {

/// The default capacity: 32 KiB.
pub const MAX_BUFFER_SIZE: usize = 32_768;

/// A poll's outcome by the bytes of its chunk.
pub open spec fn poll_view<E>(r: Result<Async<Option<Bytes>>, E>) -> PollView<E> {
    match r {
        Ok(Async::Ready(Some(chunk))) => Ok(Async::Ready(Some(chunk_bytes(chunk)))),
        Ok(Async::Ready(None)) => Ok(Async::Ready(None)),
        Ok(Async::NotReady) => Ok(Async::NotReady),
        Err(err) => Err(err),
    }
}

/// The state that the producer's and the consumer's handle share.
pub struct Inner<E> {
    len: usize,
    eof: bool,
    err: Option<E>,
    need_read: bool,
    items: VecDeque<Bytes>,
    capacity: usize,
    task: Option<Task>,
    io_task: Option<Task>,
}

impl<E> View for Inner<E> {
    type V = StreamView<E>;

    closed spec fn view(&self) -> StreamView<E> {
        StreamView {
            chunks: self.items@.map_values(|chunk: Bytes| chunk_bytes(chunk)),
            capacity: self.capacity as nat,
            eof: self.eof,
            error: self.err,
            need_read: self.need_read,
            reader_wake: self.task,
            writer_wake: self.io_task,
        }
    }
}

impl<E> Inner<E> {
    /// The byte count agrees with the queue.
    pub closed spec fn wf(&self) -> bool {
        self.len == total_len(self@.chunks)
    }

    /// A well-formed state buffers no more than a `usize` counts, and its
    /// capacity is a `usize`.
    pub proof fn lemma_bounds(&self)
        requires
            self.wf(),
        ensures
            self@.buffered() <= usize::MAX,
            self@.capacity <= usize::MAX,
    {
    }

    /// An empty stream with the default capacity.
    pub fn new(eof: bool) -> (state: Self)
        ensures
            state.wf(),
            state@ == StreamView::<E>::fresh(eof, MAX_BUFFER_SIZE as nat),
    {
        let state = Inner {
            eof,
            len: 0,
            err: None,
            items: VecDeque::new(),
            need_read: true,
            capacity: MAX_BUFFER_SIZE,
            task: None,
            io_task: None,
        };
        assert(state@.chunks =~= Seq::<Seq<u8>>::empty());
        state
    }

    /// Stores the error for the consumer; one that still waited is replaced.
    pub fn set_error(&mut self, err: E)
        requires
            old(self).wf(),
        ensures
            final(self).wf(),
            final(self)@ == old(self)@.failed(err),
    {
        self.err = Some(err);
    }

    /// Marks the end of the stream. A second call changes nothing.
    pub fn feed_eof(&mut self)
        requires
            old(self).wf(),
        ensures
            final(self).wf(),
            final(self)@ == old(self)@.ended(),
    {
        self.eof = true;
    }

    /// Appends a chunk, recomputes the wish for data and fires the consumer's
    /// wake handle, if one is registered.
    pub fn feed_data(&mut self, data: Bytes)
        requires
            old(self).wf(),
            old(self)@.buffered() + chunk_bytes(data).len() <= usize::MAX,
        ensures
            final(self).wf(),
            final(self)@ == old(self)@.fed(chunk_bytes(data)),
    {
        proof {
            lemma_total_len_push(self@.chunks, chunk_bytes(data));
            assert(self.items@.push(data).map_values(|chunk: Bytes| chunk_bytes(chunk))
                =~= self@.chunks.push(chunk_bytes(data)));
        }
        self.len += data.len();
        self.items.push_back(data);
        self.need_read = self.len < self.capacity;
        if let Some(task) = self.task.take() {
            notify(&task);
        }
    }

    /// The number of bytes buffered.
    pub fn len(&self) -> (n: usize)
        requires
            self.wf(),
        ensures
            n == self@.buffered(),
    {
        self.len
    }

    /// The capacity.
    pub fn capacity(&self) -> (n: usize)
        ensures
            n == self@.capacity,
    {
        self.capacity
    }

    /// Sets the capacity. The wish for data is recomputed at the next feed or
    /// poll, not here.
    pub fn set_capacity(&mut self, cap: usize)
        requires
            old(self).wf(),
        ensures
            final(self).wf(),
            final(self)@ == old(self)@.with_capacity(cap as nat),
    {
        self.capacity = cap;
    }

    /// Puts a chunk back in front of the queue. The wish for data is left as
    /// it is and no wake handle is fired.
    pub fn unread_data(&mut self, data: Bytes)
        requires
            old(self).wf(),
            old(self)@.buffered() + chunk_bytes(data).len() <= usize::MAX,
        ensures
            final(self).wf(),
            final(self)@ == old(self)@.unread(chunk_bytes(data)),
    {
        proof {
            lemma_total_len_push_front(self@.chunks, chunk_bytes(data));
            assert((seq![data] + self.items@).map_values(|chunk: Bytes| chunk_bytes(chunk))
                =~= seq![chunk_bytes(data)] + self@.chunks);
        }
        self.len += data.len();
        self.items.push_front(data);
    }

    /// One poll of the consumer with the wake handle `waker` of its task
    /// (`None` where no task is running): see `StreamView::polled`. The
    /// producer's wake handle is fired where that says it is gone.
    pub fn readany_with(&mut self, waker: Option<Task>) -> (r: Result<Async<Option<Bytes>>, E>)
        requires
            old(self).wf(),
        ensures
            final(self).wf(),
            (final(self)@, poll_view(r)) == old(self)@.polled(waker),
    {
        proof {
            if self@.chunks.len() > 0 {
                lemma_total_len_pop_front(self@.chunks);
            }
            assert(self.items@.len() == self@.chunks.len());
        }
        if let Some(data) = self.items.pop_front() {
            proof {
                assert(self.items@.map_values(|chunk: Bytes| chunk_bytes(chunk))
                    =~= old(self)@.rest());
                assert(chunk_bytes(data) == old(self)@.chunks[0]);
            }
            self.len -= data.len();
            self.need_read = self.len < self.capacity;
            if self.need_read && self.task.is_none() && !self.eof {
                self.task = waker;
            }
            if let Some(task) = self.io_task.take() {
                notify(&task);
            }
            Ok(Async::Ready(Some(data)))
        } else if let Some(err) = self.err.take() {
            Err(err)
        } else if self.eof {
            Ok(Async::Ready(None))
        } else {
            self.need_read = true;
            if self.task.is_none() {
                self.task = waker;
            }
            if let Some(task) = self.io_task.take() {
                notify(&task);
            }
            Ok(Async::NotReady)
        }
    }

    /// One poll of the consumer from the task that is running now. The task's
    /// wake handle is asked for only where the poll may register it. Whether
    /// it can be had is the executor's affair, so the outcome is that of
    /// `readany_with` for some handle or for none; what is yielded and what
    /// stays buffered does not depend on it.
    pub fn readany(&mut self) -> (r: Result<Async<Option<Bytes>>, E>)
        requires
            old(self).wf(),
        ensures
            final(self).wf(),
            exists|waker: Option<Task>|
                (final(self)@, poll_view(r)) == #[trigger] old(self)@.polled(waker),
    {
        let waker = if self.task.is_none() && !self.eof {
            current_task()
        } else {
            None
        };
        self.readany_with(waker)
    }

    /// The producer's question whether to go on reading, with the wake handle
    /// `waker` of its task: see `StreamView::asked`.
    pub fn need_read_with(&mut self, waker: Option<Task>) -> (status: PayloadStatus)
        requires
            old(self).wf(),
        ensures
            final(self).wf(),
            (final(self)@, status) == old(self)@.asked(waker),
    {
        if self.need_read {
            PayloadStatus::Read
        } else {
            if self.io_task.is_none() {
                self.io_task = waker;
            }
            PayloadStatus::Pause
        }
    }

    /// The producer's question whether to go on reading, from the task that
    /// is running now: the outcome of `need_read_with` for some handle or for
    /// none. The answer does not depend on it.
    pub fn need_read(&mut self) -> (status: PayloadStatus)
        requires
            old(self).wf(),
        ensures
            final(self).wf(),
            exists|waker: Option<Task>|
                (final(self)@, status) == #[trigger] old(self)@.asked(waker),
    {
        let waker = if !self.need_read && self.io_task.is_none() {
            current_task()
        } else {
            None
        };
        self.need_read_with(waker)
    }
}

} // verus!
