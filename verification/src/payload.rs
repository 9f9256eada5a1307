//! The two handles on a stream and the pool that keeps the shared states.
//!
//! A consumer's handle, `Payload`, keeps its stream's state alive; a
//! producer's handle, `PayloadSender`, only observes it. The pool counts the
//! consumer handles of each stream and destroys the state when the last one
//! is released. A slot is never given to a second stream, so a producer's
//! handle can never reach a state that is not its own.
use vstd::prelude::*;
use bytes::Bytes;
use futures::task::Task;
use crate::chunk::chunk_bytes;
use crate::inner::{Inner, MAX_BUFFER_SIZE, poll_view};
use crate::model::{Async, PayloadStatus, PollView, StreamView};

verus! {

/// One stream's place in the pool as contracts see it.
pub struct SlotView<E> {
    /// The number of consumer handles on the stream.
    pub readers: nat,
    /// The shared state, or `None` once it was destroyed.
    pub state: Option<StreamView<E>>,
}

struct Slot<E> {
    readers: usize,
    state: Option<Inner<E>>,
}

impl<E> Slot<E> {
    spec fn view(&self) -> SlotView<E> {
        SlotView {
            readers: self.readers as nat,
            state: match self.state {
                Some(inner) => Some(inner@),
                None => None,
            },
        }
    }

    spec fn wf(&self) -> bool {
        match self.state {
            Some(inner) => inner.wf() && self.readers > 0,
            None => self.readers == 0,
        }
    }
}

/// The pool `pool` with `state` as the live state of stream `id`.
pub open spec fn with_state<E>(pool: Seq<SlotView<E>>, id: usize, state: StreamView<E>) -> Seq<
    SlotView<E>,
> {
    pool.update(id as int, SlotView { state: Some(state), ..pool[id as int] })
}

/// The pool `pool` with one consumer handle more on stream `id`.
pub open spec fn with_reader<E>(pool: Seq<SlotView<E>>, id: usize) -> Seq<SlotView<E>> {
    pool.update(id as int, SlotView { readers: pool[id as int].readers + 1, ..pool[id as int] })
}

/// The pool `pool` with one consumer handle fewer on stream `id`; with the
/// last handle the state goes.
pub open spec fn without_reader<E>(pool: Seq<SlotView<E>>, id: usize) -> Seq<SlotView<E>> {
    let slot = pool[id as int];
    if slot.readers == 1 {
        pool.update(id as int, SlotView { readers: 0, state: None })
    } else {
        pool.update(id as int, SlotView { readers: (slot.readers - 1) as nat, ..slot })
    }
}

/// One poll of the live stream `id` in the pool `pool`: the pool after it and
/// what the poll yields.
pub open spec fn polled_in<E>(pool: Seq<SlotView<E>>, id: usize, waker: Option<Task>) -> (
    Seq<SlotView<E>>,
    PollView<E>,
) {
    let outcome = pool[id as int].state.unwrap().polled(waker);
    (with_state(pool, id, outcome.0), outcome.1)
}

/// The producer's question whether to go on, asked of stream `id` in the pool
/// `pool`: the pool after it and the answer. A stream that was destroyed or
/// never made is reported as dropped.
pub open spec fn asked_in<E>(pool: Seq<SlotView<E>>, id: usize, waker: Option<Task>) -> (
    Seq<SlotView<E>>,
    PayloadStatus,
) {
    if id < pool.len() && pool[id as int].state is Some {
        let outcome = pool[id as int].state.unwrap().asked(waker);
        (with_state(pool, id, outcome.0), outcome.1)
    } else {
        (pool, PayloadStatus::Dropped)
    }
}

/// The shared states of all streams that were created in it, each in a slot
/// of its own.
pub struct Pool<E> {
    slots: Vec<Slot<E>>,
}

impl<E> View for Pool<E> {
    type V = Seq<SlotView<E>>;

    closed spec fn view(&self) -> Seq<SlotView<E>> {
        Seq::new(self.slots@.len(), |i: int| self.slots@[i].view())
    }
}

impl<E> Pool<E> {
    /// Every live state is consistent, and a state lives exactly as long as a
    /// consumer handle is left on it.
    pub closed spec fn wf(&self) -> bool {
        forall|i: int| 0 <= i < self.slots@.len() ==> (#[trigger] self.slots@[i]).wf()
    }

    /// The state of stream `id`, or `None` if it was destroyed or never made.
    pub open spec fn stream(&self, id: usize) -> Option<StreamView<E>> {
        if id < self@.len() {
            self@[id as int].state
        } else {
            None
        }
    }

    /// The number of consumer handles on stream `id`.
    pub open spec fn readers(&self, id: usize) -> nat {
        if id < self@.len() {
            self@[id as int].readers
        } else {
            0
        }
    }

    /// In a well-formed pool a stream is live exactly while consumer handles
    /// are left on it, and a live stream buffers no more than a `usize` counts.
    pub proof fn lemma_live(&self, id: usize)
        requires
            self.wf(),
        ensures
            self.stream(id) is Some <==> self.readers(id) > 0,
            self.stream(id) is Some ==> self.stream(id).unwrap().buffered() <= usize::MAX,
            self.readers(id) <= usize::MAX,
    {
        if id < self@.len() {
            let slot = self.slots@[id as int];
            assert(slot.wf());
            if let Some(inner) = slot.state {
                inner.lemma_bounds();
            }
        }
    }

    /// A pool with no stream in it.
    pub fn new() -> (pool: Self)
        ensures
            pool.wf(),
            pool@ == Seq::<SlotView<E>>::empty(),
    {
        let pool = Pool { slots: Vec::new() };
        assert(pool@ =~= Seq::<SlotView<E>>::empty());
        pool
    }

    /// The number of streams that were ever created in the pool.
    pub fn streams(&self) -> (n: usize)
        ensures
            n == self@.len(),
    {
        self.slots.len()
    }

    fn open_stream(&mut self, eof: bool) -> (id: usize)
        requires
            old(self).wf(),
        ensures
            final(self).wf(),
            id == old(self)@.len(),
            final(self)@ == old(self)@.push(
                SlotView {
                    readers: 1,
                    state: Some(StreamView::<E>::fresh(eof, MAX_BUFFER_SIZE as nat)),
                },
            ),
    {
        let id: usize = self.slots.len();
        self.slots.push(Slot { readers: 1, state: Some(Inner::new(eof)) });
        assert(final(self)@ =~= old(self)@.push(
            SlotView {
                readers: 1,
                state: Some(StreamView::<E>::fresh(eof, MAX_BUFFER_SIZE as nat)),
            },
        ));
        id
    }
}

/// The consumer's handle on a stream. It is given up by `release`; a handle
/// that merely goes out of scope stays counted, and its stream stays alive.
#[derive(Debug)]
pub struct Payload {
    slot: usize,
}

/// The producer's handle on a stream. It does not keep the stream alive:
/// once no consumer is left, feeding does nothing.
#[derive(Debug)]
pub struct PayloadSender {
    slot: usize,
}

impl Payload {
    /// The stream that the handle is on.
    pub closed spec fn id(&self) -> usize {
        self.slot
    }

    /// Creates a stream in the pool and returns its two handles. Nothing is
    /// buffered, the capacity is the default, and `eof` says whether the
    /// stream has ended from the start.
    pub fn create<E>(pool: &mut Pool<E>, eof: bool) -> (handles: (PayloadSender, Payload))
        requires
            old(pool).wf(),
        ensures
            final(pool).wf(),
            handles.0.id() == old(pool)@.len(),
            handles.1.id() == old(pool)@.len(),
            final(pool)@ == old(pool)@.push(
                SlotView {
                    readers: 1,
                    state: Some(StreamView::<E>::fresh(eof, MAX_BUFFER_SIZE as nat)),
                },
            ),
    {
        let slot: usize = pool.open_stream(eof);
        (PayloadSender { slot }, Payload { slot })
    }

    /// Creates a stream that is empty and has ended, with no producer.
    pub fn empty<E>(pool: &mut Pool<E>) -> (payload: Payload)
        requires
            old(pool).wf(),
        ensures
            final(pool).wf(),
            payload.id() == old(pool)@.len(),
            final(pool)@ == old(pool)@.push(
                SlotView {
                    readers: 1,
                    state: Some(StreamView::<E>::fresh(true, MAX_BUFFER_SIZE as nat)),
                },
            ),
    {
        let slot: usize = pool.open_stream(true);
        Payload { slot }
    }

    /// Whether the handle's stream is live in `pool`: true of every handle
    /// used with the pool that made it.
    pub fn is_live<E>(&self, pool: &Pool<E>) -> (live: bool)
        ensures
            live == (pool.stream(self.id()) is Some),
    {
        self.slot < pool.slots.len() && pool.slots[self.slot].state.is_some()
    }

    /// The number of consumer handles on the handle's stream, this one
    /// included; 0 where the stream is not live in `pool`.
    pub fn handles<E>(&self, pool: &Pool<E>) -> (n: usize)
        ensures
            n == pool.readers(self.id()),
    {
        if self.slot < pool.slots.len() {
            pool.slots[self.slot].readers
        } else {
            0
        }
    }

    /// The number of bytes buffered.
    pub fn len<E>(&self, pool: &Pool<E>) -> (n: usize)
        requires
            pool.wf(),
            pool.stream(self.id()) is Some,
        ensures
            n == pool.stream(self.id()).unwrap().buffered(),
    {
        match &pool.slots[self.slot].state {
            Some(inner) => inner.len(),
            None => 0,
        }
    }

    /// Whether nothing is buffered.
    pub fn is_empty<E>(&self, pool: &Pool<E>) -> (empty: bool)
        requires
            pool.wf(),
            pool.stream(self.id()) is Some,
        ensures
            empty == (pool.stream(self.id()).unwrap().buffered() == 0),
    {
        self.len(pool) == 0
    }

    /// Puts data that was read and not used back in front of the stream.
    pub fn unread_data<E>(&mut self, pool: &mut Pool<E>, data: Bytes)
        requires
            old(pool).wf(),
            old(pool).stream(old(self).id()) is Some,
            old(pool).stream(old(self).id()).unwrap().buffered() + chunk_bytes(data).len()
                <= usize::MAX,
        ensures
            final(self).id() == old(self).id(),
            final(pool).wf(),
            final(pool)@ == with_state(
                old(pool)@,
                old(self).id(),
                old(pool).stream(old(self).id()).unwrap().unread(chunk_bytes(data)),
            ),
    {
        let slot = &mut pool.slots[self.slot];
        match &mut slot.state {
            Some(inner) => {
                inner.unread_data(data);
            },
            None => {},
        }
        assert(final(pool)@ =~= with_state(
            old(pool)@,
            old(self).id(),
            old(pool).stream(old(self).id()).unwrap().unread(chunk_bytes(data)),
        ));
    }

    /// Sets the capacity of the read buffer, 32 KiB by default.
    pub fn set_read_buffer_capacity<E>(&mut self, pool: &mut Pool<E>, cap: usize)
        requires
            old(pool).wf(),
            old(pool).stream(old(self).id()) is Some,
        ensures
            final(self).id() == old(self).id(),
            final(pool).wf(),
            final(pool)@ == with_state(
                old(pool)@,
                old(self).id(),
                old(pool).stream(old(self).id()).unwrap().with_capacity(cap as nat),
            ),
    {
        let slot = &mut pool.slots[self.slot];
        match &mut slot.state {
            Some(inner) => {
                inner.set_capacity(cap);
            },
            None => {},
        }
        assert(final(pool)@ =~= with_state(
            old(pool)@,
            old(self).id(),
            old(pool).stream(old(self).id()).unwrap().with_capacity(cap as nat),
        ));
    }

    /// Pulls the next item of the stream, with the wake handle `waker` of the
    /// consumer's task (`None` where no task is running). What comes out and
    /// what becomes of the stream is `StreamView::polled` of its state.
    pub fn poll_with<E>(&mut self, pool: &mut Pool<E>, waker: Option<Task>) -> (r: Result<
        Async<Option<Bytes>>,
        E,
    >)
        requires
            old(pool).wf(),
            old(pool).stream(old(self).id()) is Some,
        ensures
            final(self).id() == old(self).id(),
            final(pool).wf(),
            (final(pool)@, poll_view(r)) == polled_in(old(pool)@, old(self).id(), waker),
    {
        let slot = &mut pool.slots[self.slot];
        let r = match &mut slot.state {
            Some(inner) => inner.readany_with(waker),
            None => Ok(Async::NotReady),
        };
        assert(final(pool)@ =~= with_state(
            old(pool)@,
            old(self).id(),
            old(pool).stream(old(self).id()).unwrap().polled(waker).0,
        ));
        r
    }

    /// Pulls the next item of the stream from the task that is running now.
    /// Whether a wake handle can be had is the executor's affair: the outcome
    /// is that of `poll_with` for some handle or for none. What is yielded
    /// and what stays buffered does not depend on it.
    pub fn poll<E>(&mut self, pool: &mut Pool<E>) -> (r: Result<Async<Option<Bytes>>, E>)
        requires
            old(pool).wf(),
            old(pool).stream(old(self).id()) is Some,
        ensures
            final(self).id() == old(self).id(),
            final(pool).wf(),
            exists|waker: Option<Task>|
                (final(pool)@, poll_view(r)) == #[trigger] polled_in(
                    old(pool)@,
                    old(self).id(),
                    waker,
                ),
    {
        let slot = &mut pool.slots[self.slot];
        let r = match &mut slot.state {
            Some(inner) => inner.readany(),
            None => Ok(Async::NotReady),
        };
        proof {
            let before = old(pool).stream(old(self).id()).unwrap();
            let after = final(pool).stream(old(self).id()).unwrap();
            let waker = choose|waker: Option<Task>|
                (after, poll_view(r)) == #[trigger] before.polled(waker);
            assert(final(pool)@ =~= with_state(old(pool)@, old(self).id(), after));
            assert((final(pool)@, poll_view(r)) == polled_in(old(pool)@, old(self).id(), waker));
        }
        r
    }

    /// A second consumer handle on the same stream.
    pub fn share<E>(&self, pool: &mut Pool<E>) -> (other: Payload)
        requires
            old(pool).wf(),
            old(pool).stream(self.id()) is Some,
            old(pool).readers(self.id()) < usize::MAX,
        ensures
            other.id() == self.id(),
            final(pool).wf(),
            final(pool)@ == with_reader(old(pool)@, self.id()),
    {
        let slot = &mut pool.slots[self.slot];
        slot.readers = slot.readers + 1;
        assert(final(pool)@ =~= with_reader(old(pool)@, self.id()));
        Payload { slot: self.slot }
    }

    /// Gives the handle up. With the last handle on a stream its state is
    /// destroyed: what was buffered is gone, and the producer finds the
    /// stream dropped.
    pub fn release<E>(self, pool: &mut Pool<E>)
        requires
            old(pool).wf(),
            old(pool).stream(self.id()) is Some,
        ensures
            final(pool).wf(),
            final(pool)@ == without_reader(old(pool)@, self.id()),
    {
        let slot = &mut pool.slots[self.slot];
        slot.readers = slot.readers - 1;
        if slot.readers == 0 {
            slot.state = None;
        }
        assert(final(pool)@ =~= without_reader(old(pool)@, self.id()));
    }
}

/// What a producer may do to a stream: feed it and ask whether to go on.
/// The producer's handle implements it; so may any other adapter that feeds
/// a stream of the pool.
pub trait PayloadWriter<E> {
    /// The stream that is fed.
    spec fn stream_id(&self) -> usize;

    /// Records a terminal error, which the consumer gets once the buffered
    /// chunks are drained. Where no consumer is left nothing changes.
    fn set_error(&mut self, pool: &mut Pool<E>, err: E)
        requires
            old(pool).wf(),
        ensures
            final(self).stream_id() == old(self).stream_id(),
            final(pool).wf(),
            final(pool)@ == match old(pool).stream(old(self).stream_id()) {
                Some(state) => with_state(old(pool)@, old(self).stream_id(), state.failed(err)),
                None => old(pool)@,
            },
    ;

    /// Marks the end of the stream. Where no consumer is left nothing changes.
    fn feed_eof(&mut self, pool: &mut Pool<E>)
        requires
            old(pool).wf(),
        ensures
            final(self).stream_id() == old(self).stream_id(),
            final(pool).wf(),
            final(pool)@ == match old(pool).stream(old(self).stream_id()) {
                Some(state) => with_state(old(pool)@, old(self).stream_id(), state.ended()),
                None => old(pool)@,
            },
    ;

    /// Feeds a chunk into the stream. Where no consumer is left the chunk is
    /// dropped and nothing changes.
    fn feed_data(&mut self, pool: &mut Pool<E>, data: Bytes)
        requires
            old(pool).wf(),
            old(pool).stream(old(self).stream_id()) is Some ==> old(pool).stream(
                old(self).stream_id(),
            ).unwrap().buffered() + chunk_bytes(data).len() <= usize::MAX,
        ensures
            final(self).stream_id() == old(self).stream_id(),
            final(pool).wf(),
            final(pool)@ == match old(pool).stream(old(self).stream_id()) {
                Some(state) => with_state(
                    old(pool)@,
                    old(self).stream_id(),
                    state.fed(chunk_bytes(data)),
                ),
                None => old(pool)@,
            },
    ;

    /// Asks whether the producer is to go on reading, from the task that is
    /// running now. The answer does not depend on the task: `Dropped` where no
    /// consumer is left, `Read` where the consumer wants data, else `Pause`.
    /// On a pause the producer's wake handle is registered if it can be had
    /// and none is registered yet; nothing else changes.
    fn need_read(&self, pool: &mut Pool<E>) -> (status: PayloadStatus)
        requires
            old(pool).wf(),
        ensures
            final(pool).wf(),
            exists|waker: Option<Task>|
                (final(pool)@, status) == #[trigger] asked_in(
                    old(pool)@,
                    self.stream_id(),
                    waker,
                ),
    ;
}

impl PayloadSender {
    /// The stream that the handle is on.
    pub closed spec fn id(&self) -> usize {
        self.slot
    }

    /// Whether a consumer is left on the handle's stream.
    pub fn is_live<E>(&self, pool: &Pool<E>) -> (live: bool)
        ensures
            live == (pool.stream(self.id()) is Some),
    {
        self.slot < pool.slots.len() && pool.slots[self.slot].state.is_some()
    }

    /// The number of bytes buffered in the handle's stream; 0 where no
    /// consumer is left.
    pub fn buffered<E>(&self, pool: &Pool<E>) -> (n: usize)
        requires
            pool.wf(),
        ensures
            n == match pool.stream(self.id()) {
                Some(state) => state.buffered(),
                None => 0,
            },
    {
        if self.slot < pool.slots.len() {
            match &pool.slots[self.slot].state {
                Some(inner) => inner.len(),
                None => 0,
            }
        } else {
            0
        }
    }

    /// Asks whether the producer is to go on reading, with the wake handle
    /// `waker` of its task (`None` where no task is running): see `asked_in`.
    pub fn need_read_with<E>(&self, pool: &mut Pool<E>, waker: Option<Task>) -> (status:
        PayloadStatus)
        requires
            old(pool).wf(),
        ensures
            final(pool).wf(),
            (final(pool)@, status) == asked_in(old(pool)@, self.id(), waker),
    {
        let mut status = PayloadStatus::Dropped;
        if self.slot < pool.slots.len() {
            let slot = &mut pool.slots[self.slot];
            match &mut slot.state {
                Some(inner) => {
                    status = inner.need_read_with(waker);
                },
                None => {},
            }
        }
        assert(final(pool)@ =~= asked_in(old(pool)@, self.id(), waker).0);
        status
    }
}

impl<E> PayloadWriter<E> for PayloadSender {
    open spec fn stream_id(&self) -> usize {
        self.id()
    }

    fn set_error(&mut self, pool: &mut Pool<E>, err: E) {
        if self.slot < pool.slots.len() {
            let slot = &mut pool.slots[self.slot];
            match &mut slot.state {
                Some(inner) => {
                    inner.set_error(err);
                },
                None => {},
            }
        }
        assert(final(pool)@ =~= match old(pool).stream(old(self).id()) {
            Some(state) => with_state(old(pool)@, old(self).id(), state.failed(err)),
            None => old(pool)@,
        });
    }

    fn feed_eof(&mut self, pool: &mut Pool<E>) {
        if self.slot < pool.slots.len() {
            let slot = &mut pool.slots[self.slot];
            match &mut slot.state {
                Some(inner) => {
                    inner.feed_eof();
                },
                None => {},
            }
        }
        assert(final(pool)@ =~= match old(pool).stream(old(self).id()) {
            Some(state) => with_state(old(pool)@, old(self).id(), state.ended()),
            None => old(pool)@,
        });
    }

    fn feed_data(&mut self, pool: &mut Pool<E>, data: Bytes) {
        if self.slot < pool.slots.len() {
            let slot = &mut pool.slots[self.slot];
            match &mut slot.state {
                Some(inner) => {
                    inner.feed_data(data);
                },
                None => {},
            }
        }
        assert(final(pool)@ =~= match old(pool).stream(old(self).id()) {
            Some(state) => with_state(old(pool)@, old(self).id(), state.fed(chunk_bytes(data))),
            None => old(pool)@,
        });
    }

    fn need_read(&self, pool: &mut Pool<E>) -> (status: PayloadStatus) {
        let mut status = PayloadStatus::Dropped;
        if self.slot < pool.slots.len() {
            let slot = &mut pool.slots[self.slot];
            match &mut slot.state {
                Some(inner) => {
                    status = inner.need_read();
                },
                None => {},
            }
        }
        proof {
            if let Some(before) = old(pool).stream(self.id()) {
                let after = final(pool).stream(self.id()).unwrap();
                let waker = choose|waker: Option<Task>|
                    (after, status) == #[trigger] before.asked(waker);
                assert(final(pool)@ =~= with_state(old(pool)@, self.id(), after));
                assert((final(pool)@, status) == asked_in(
                    old(pool)@,
                    PayloadWriter::<E>::stream_id(self),
                    waker,
                ));
            } else {
                assert(final(pool)@ =~= old(pool)@);
                assert((final(pool)@, status) == asked_in(
                    old(pool)@,
                    PayloadWriter::<E>::stream_id(self),
                    None,
                ));
            }
        }
        status
    }
}

} // verus!
