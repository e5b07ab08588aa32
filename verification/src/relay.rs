//! Bounded, ordered, typed relay channel.
//!
//! A relay is one producer/consumer pair over a shared bounded buffer. The
//! buffer logic itself is the verified state machine [`RelayState`]: every
//! transition states exactly what happens to the buffered sequence, so the
//! ordering and backpressure guarantees are proved rather than assumed. The
//! producer and consumer ends share that state machine behind a verified
//! reader-writer lock; suspension on a full or empty buffer is layered on top
//! by unverified async glue that retries the non-suspending transitions here.

use std::sync::Arc;
use vstd::prelude::*;
use vstd::rwlock::{RwLock, RwLockPredicate};

use crate::fifo::{after_pops, after_pushes, lemma_pops_skip, lemma_pushes_append};

verus! {

/// Outcome of one non-suspending send attempt.
pub enum SendOutcome<T> {
    /// The message entered the buffer.
    Sent,
    /// The buffer held `capacity` messages; the message is handed back so the
    /// caller can retry once the consumer has drained something.
    Full(T),
    /// The consumer end is gone; the message is handed back and no later send
    /// on this relay can succeed.
    ChannelClosed(T),
}

/// Outcome of one non-suspending receive attempt.
pub enum RecvOutcome<T> {
    /// The oldest buffered message.
    Msg(T),
    /// The buffer is empty but producers are still attached; more messages may
    /// arrive.
    Pending,
    /// The buffer is empty and every producer is gone: the stream has ended.
    EndOfStream,
}

/// The relay's buffer state machine: a bounded FIFO queue plus liveness of the
/// two ends. All ordering, capacity and closing behaviour of the relay is
/// specified and proved on these transitions.
pub struct RelayState<T> {
    queue: Vec<T>,
    capacity: usize,
    producers: usize,
    consumer_alive: bool,
}

impl<T> RelayState<T> {
    /// The buffered messages, oldest first.
    pub closed spec fn buffered(self) -> Seq<T> {
        self.queue@
    }

    /// The fixed capacity of the buffer.
    pub closed spec fn cap(self) -> nat {
        self.capacity as nat
    }

    /// How many producer ends are attached.
    pub closed spec fn producer_count(self) -> nat {
        self.producers as nat
    }

    /// Whether the consumer end is still attached.
    pub closed spec fn consumer_live(self) -> bool {
        self.consumer_alive
    }

    /// The buffer never exceeds its positive capacity.
    pub open spec fn wf(self) -> bool {
        self.buffered().len() <= self.cap() && 1 <= self.cap()
    }

    /// A fresh relay state: empty buffer, one producer, a live consumer.
    pub fn new(capacity: usize) -> (s: Self)
        requires
            1 <= capacity,
        ensures
            s.buffered() == Seq::<T>::empty(),
            s.cap() == capacity,
            s.producer_count() == 1,
            s.consumer_live(),
            s.wf(),
    {
        RelayState { queue: Vec::new(), capacity, producers: 1, consumer_alive: true }
    }

    /// One send attempt: fails once the consumer is gone, reports a full
    /// buffer for backpressure, and otherwise appends the message — never
    /// dropping, duplicating or reordering anything already buffered.
    pub fn try_push(&mut self, message: T) -> (r: SendOutcome<T>)
        requires
            old(self).wf(),
        ensures
            final(self).wf(),
            final(self).cap() == old(self).cap(),
            final(self).producer_count() == old(self).producer_count(),
            final(self).consumer_live() == old(self).consumer_live(),
            !old(self).consumer_live() ==> r == SendOutcome::ChannelClosed(message)
                && final(self).buffered() == old(self).buffered(),
            old(self).consumer_live() && old(self).buffered().len() == old(self).cap()
                ==> r == SendOutcome::Full(message)
                && final(self).buffered() == old(self).buffered(),
            old(self).consumer_live() && old(self).buffered().len() < old(self).cap()
                ==> r == SendOutcome::<T>::Sent
                && final(self).buffered() == old(self).buffered().push(message),
    {
        if !self.consumer_alive {
            SendOutcome::ChannelClosed(message)
        } else if self.queue.len() == self.capacity {
            SendOutcome::Full(message)
        } else {
            self.queue.push(message);
            SendOutcome::Sent
        }
    }

    /// One receive attempt: yields the oldest buffered message first, keeps
    /// draining after the producers are gone, and signals end-of-stream only
    /// once the buffer is empty and no producer remains.
    pub fn try_pop(&mut self) -> (r: RecvOutcome<T>)
        requires
            old(self).wf(),
        ensures
            final(self).wf(),
            final(self).cap() == old(self).cap(),
            final(self).producer_count() == old(self).producer_count(),
            final(self).consumer_live() == old(self).consumer_live(),
            old(self).buffered().len() > 0 ==> r == RecvOutcome::Msg(old(self).buffered()[0])
                && final(self).buffered() == old(self).buffered().remove(0),
            old(self).buffered().len() == 0 && old(self).producer_count() == 0
                ==> r == RecvOutcome::<T>::EndOfStream
                && final(self).buffered() == old(self).buffered(),
            old(self).buffered().len() == 0 && old(self).producer_count() > 0
                ==> r == RecvOutcome::<T>::Pending
                && final(self).buffered() == old(self).buffered(),
    {
        if self.queue.len() > 0 {
            let message = self.queue.remove(0);
            RecvOutcome::Msg(message)
        } else if self.producers == 0 {
            RecvOutcome::EndOfStream
        } else {
            RecvOutcome::Pending
        }
    }

    /// Register one more producer end (a producer clone). The count saturates
    /// at the machine limit, which no real program reaches.
    pub fn attach_producer(&mut self)
        requires
            old(self).wf(),
        ensures
            final(self).wf(),
            final(self).buffered() == old(self).buffered(),
            final(self).cap() == old(self).cap(),
            final(self).consumer_live() == old(self).consumer_live(),
            old(self).producer_count() < usize::MAX
                ==> final(self).producer_count() == old(self).producer_count() + 1,
            old(self).producer_count() == usize::MAX
                ==> final(self).producer_count() == old(self).producer_count(),
    {
        if self.producers < usize::MAX {
            self.producers = self.producers + 1;
        }
    }

    /// Unregister one producer end. Once the count reaches zero the stream
    /// ends as soon as the buffer is drained.
    pub fn detach_producer(&mut self)
        requires
            old(self).wf(),
        ensures
            final(self).wf(),
            final(self).buffered() == old(self).buffered(),
            final(self).cap() == old(self).cap(),
            final(self).consumer_live() == old(self).consumer_live(),
            old(self).producer_count() > 0
                ==> final(self).producer_count() == old(self).producer_count() - 1,
            old(self).producer_count() == 0
                ==> final(self).producer_count() == 0,
    {
        if self.producers > 0 {
            self.producers = self.producers - 1;
        }
    }

    /// Unregister the consumer end: every later send fails with
    /// [`SendOutcome::ChannelClosed`].
    pub fn detach_consumer(&mut self)
        requires
            old(self).wf(),
        ensures
            final(self).wf(),
            final(self).buffered() == old(self).buffered(),
            final(self).cap() == old(self).cap(),
            final(self).producer_count() == old(self).producer_count(),
            !final(self).consumer_live(),
    {
        self.consumer_alive = false;
    }
}

/// Lock invariant of a shared relay: the state machine is well formed and its
/// capacity is the one the relay was opened with.
pub struct RelayInv {
    pub capacity: usize,
}

impl<T> RwLockPredicate<RelayState<T>> for RelayInv {
    open spec fn inv(self, v: RelayState<T>) -> bool {
        v.wf() && v.cap() == self.capacity
    }
}

/// The clonable producer end of a relay.
pub struct OutboundRelay<T> {
    chan: Arc<RwLock<RelayState<T>, RelayInv>>,
}

/// The single consumer end of a relay.
pub struct InboundRelay<T> {
    chan: Arc<RwLock<RelayState<T>, RelayInv>>,
}

impl<T> OutboundRelay<T> {
    /// The shared channel this producer feeds.
    pub closed spec fn channel(self) -> RwLock<RelayState<T>, RelayInv> {
        *self.chan
    }

    /// The capacity the channel was opened with.
    pub open spec fn cap(self) -> nat {
        self.channel().pred().capacity as nat
    }

    /// One non-suspending send attempt; the buffered sequence only ever grows
    /// by `message` at its end, so send order is delivery order.
    pub fn try_send(&self, message: T) -> (r: SendOutcome<T>)
        ensures
            r is Full ==> r->Full_0 == message,
            r is ChannelClosed ==> r->ChannelClosed_0 == message,
    {
        let (mut state, lock_handle) = (*self.chan).acquire_write();
        let outcome = state.try_push(message);
        lock_handle.release_write(state);
        outcome
    }

    /// Detach this producer end. Once every producer end has been detached,
    /// the consumer drains what is buffered and then sees end-of-stream.
    pub fn close(self) {
        let (mut state, lock_handle) = (*self.chan).acquire_write();
        state.detach_producer();
        lock_handle.release_write(state);
    }
}

impl<T> Clone for OutboundRelay<T> {
    /// Another producer end of the same channel; the channel registers it so
    /// end-of-stream waits for this clone too.
    fn clone(&self) -> (r: Self)
        ensures
            r.channel() == self.channel(),
    {
        let (mut state, lock_handle) = (*self.chan).acquire_write();
        state.attach_producer();
        lock_handle.release_write(state);
        OutboundRelay { chan: self.chan.clone() }
    }
}

impl<T> InboundRelay<T> {
    /// The shared channel this consumer drains.
    pub closed spec fn channel(self) -> RwLock<RelayState<T>, RelayInv> {
        *self.chan
    }

    /// One non-suspending receive attempt.
    pub fn try_receive(&mut self) -> (r: RecvOutcome<T>)
        ensures
            final(self).channel() == old(self).channel(),
    {
        let (mut state, lock_handle) = (*self.chan).acquire_write();
        let outcome = state.try_pop();
        lock_handle.release_write(state);
        outcome
    }

    /// Detach the consumer end: every later send on this relay fails with
    /// [`SendOutcome::ChannelClosed`].
    pub fn close(self) {
        let (mut state, lock_handle) = (*self.chan).acquire_write();
        state.detach_consumer();
        lock_handle.release_write(state);
    }
}

/// Relay FIFO law. For any run of `n <= capacity` sends on a fresh relay:
/// every send finds room, so none is refused or dropped; the buffer then
/// holds exactly the messages sent, in send order; and the `k`-th receive
/// yields the `k`-th message sent — no reordering, duplication or loss.
/// `after_pushes` and `after_pops` iterate exactly what `try_push` and
/// `try_pop` state of the buffer.
pub proof fn lemma_relay_fifo<T>(ms: Seq<T>, capacity: nat)
    requires
        ms.len() <= capacity,
    ensures
        forall|k: int|
            0 <= k < ms.len() ==> (#[trigger] after_pushes(Seq::<T>::empty(), ms.take(k))).len()
                < capacity,
        after_pushes(Seq::<T>::empty(), ms) == ms,
        forall|k: int|
            0 <= k < ms.len() ==> (#[trigger] after_pops(ms, k))[0] == ms[k] && after_pops(
                ms,
                k,
            ).len() == ms.len() - k,
{
    assert forall|k: int| 0 <= k < ms.len() implies (#[trigger] after_pushes(
        Seq::<T>::empty(),
        ms.take(k),
    )).len() < capacity by {
        lemma_pushes_append(Seq::<T>::empty(), ms.take(k));
        assert(Seq::<T>::empty() + ms.take(k) =~= ms.take(k));
    }
    lemma_pushes_append(Seq::<T>::empty(), ms);
    assert(Seq::<T>::empty() + ms =~= ms);
    assert forall|k: int| 0 <= k < ms.len() implies (#[trigger] after_pops(ms, k))[0] == ms[k]
        && after_pops(ms, k).len() == ms.len() - k by {
        lemma_pops_skip(ms, k);
    }
}

/// Open a fresh relay: one consumer end and one producer end over the same
/// bounded channel.
pub fn relay<T>(capacity: usize) -> (r: (InboundRelay<T>, OutboundRelay<T>))
    requires
        1 <= capacity,
    ensures
        r.0.channel() == r.1.channel(),
        r.1.cap() == capacity,
{
    let state = RelayState::new(capacity);
    let chan = Arc::new(RwLock::new(state, Ghost(RelayInv { capacity })));
    let chan_out = chan.clone();
    (InboundRelay { chan }, OutboundRelay { chan: chan_out })
}

} // verus!
