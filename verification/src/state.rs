//! Ordered state-persistence pipeline.
//!
//! A pipeline is one pusher ([`StateUpdater`]) feeding one consumer
//! ([`StateHandle`]) that hands snapshots to a pluggable operator strictly in
//! push order, one at a time. The queue logic is the verified state machine
//! [`SnapshotQueue`]: pushes append, the consumer always takes the oldest
//! snapshot, nothing is dropped, duplicated or reordered. The queue is
//! unbounded, so a push never suspends and never applies backpressure; it is
//! best effort in the sense that memory is the only limit. A failing persist
//! is reported to the caller of [`StateHandle::drain_once`] and never stops
//! the pipeline: the next call simply proceeds to the next snapshot.

use std::sync::Arc;
use vstd::prelude::*;
use vstd::rwlock::{RwLock, RwLockPredicate};

use crate::fifo::{after_pops, after_pushes, lemma_pops_skip, lemma_pushes_append};

verus! {

/// Failure reported by an operator for one snapshot. It is caught by the
/// pipeline's driver, which goes on with the next snapshot.
pub struct OperatorError {
    /// The operator's own description of what went wrong.
    pub reason: String,
}

/// A pluggable policy persisting one service's state snapshots.
///
/// The core consumes this capability: an operator is constructed once per
/// runner build, from the settings value visible at that moment, and is then
/// handed every pushed snapshot in push order, sequentially. Implementations
/// report success or failure per snapshot; a failure never halts the
/// pipeline.
pub trait StateOperator<StateInput>: Sized {
    /// Construct the operator from the settings snapshot current when the
    /// runner is built. It is not refreshed on later settings updates.
    fn from_settings<Settings>(settings: Settings) -> Self;

    /// Persist one snapshot, reporting success or failure for it.
    fn persist(&mut self, state: StateInput) -> Result<(), OperatorError>;
}

/// The pipeline's queue state machine: snapshots in push order, oldest first.
pub struct SnapshotQueue<S> {
    items: Vec<S>,
}

impl<S> SnapshotQueue<S> {
    /// The queued snapshots, oldest first.
    pub closed spec fn queued(self) -> Seq<S> {
        self.items@
    }

    /// A fresh queue holding the seed snapshot.
    pub fn new(seed: S) -> (q: Self)
        ensures
            q.queued() == seq![seed],
    {
        let mut items = Vec::new();
        items.push(seed);
        SnapshotQueue { items }
    }

    /// Enqueue a snapshot after everything already queued: push order is
    /// preserved, nothing is replaced or dropped.
    pub fn push_back(&mut self, snapshot: S)
        ensures
            final(self).queued() == old(self).queued().push(snapshot),
    {
        self.items.push(snapshot);
    }

    /// Dequeue the oldest snapshot, if any.
    pub fn pop_front(&mut self) -> (r: Option<S>)
        ensures
            old(self).queued().len() > 0 ==> r == Some(old(self).queued()[0])
                && final(self).queued() == old(self).queued().remove(0),
            old(self).queued().len() == 0 ==> r is None
                && final(self).queued() == old(self).queued(),
    {
        if self.items.len() > 0 {
            Some(self.items.remove(0))
        } else {
            None
        }
    }
}

/// Lock invariant of a shared snapshot queue: any queue contents are
/// admissible — ordering is guaranteed by the transitions, not the invariant.
pub struct AnyQueue;

impl<S> RwLockPredicate<SnapshotQueue<S>> for AnyQueue {
    open spec fn inv(self, v: SnapshotQueue<S>) -> bool {
        true
    }
}

/// The pusher half of a pipeline, owned by the running service.
pub struct StateUpdater<S> {
    queue: Arc<RwLock<SnapshotQueue<S>, AnyQueue>>,
}

/// The consumer half of a pipeline: owns the operator and drains the queue
/// into it, strictly in push order, one snapshot at a time.
pub struct StateHandle<S, Operator> {
    queue: Arc<RwLock<SnapshotQueue<S>, AnyQueue>>,
    operator: Operator,
}

impl<S> StateUpdater<S> {
    /// The shared queue this pusher feeds.
    pub closed spec fn queue(self) -> RwLock<SnapshotQueue<S>, AnyQueue> {
        *self.queue
    }

    /// Enqueue one snapshot without suspending; the queue is unbounded, so
    /// the push always succeeds and never reorders earlier snapshots.
    pub fn update(&self, snapshot: S) {
        let (mut queue_state, lock_handle) = (*self.queue).acquire_write();
        queue_state.push_back(snapshot);
        lock_handle.release_write(queue_state);
    }
}

impl<S> Clone for StateUpdater<S> {
    /// Another pusher end of the same queue.
    fn clone(&self) -> (r: Self)
        ensures
            r.queue() == self.queue(),
    {
        StateUpdater { queue: self.queue.clone() }
    }
}

impl<S, Operator> StateHandle<S, Operator> {
    /// The shared queue this consumer drains.
    pub closed spec fn queue(self) -> RwLock<SnapshotQueue<S>, AnyQueue> {
        *self.queue
    }

    /// Open a pipeline seeded with `initial_state`: the consumer half paired
    /// with the pusher half feeding it.
    pub fn new(initial_state: S, operator: Operator) -> (r: (Self, StateUpdater<S>))
        ensures
            r.0.queue() == r.1.queue(),
    {
        let queue = Arc::new(RwLock::new(SnapshotQueue::new(initial_state), Ghost(AnyQueue)));
        let pusher_queue = queue.clone();
        (StateHandle { queue, operator }, StateUpdater { queue: pusher_queue })
    }
}

impl<S, Operator: StateOperator<S>> StateHandle<S, Operator> {
    /// Take the oldest queued snapshot, if any, and persist it — the one
    /// sequential persist in flight, so two persists never race. `None` means
    /// the queue was empty; `Some(Err(..))` reports the operator's failure
    /// for that snapshot and leaves the pipeline ready for the next one.
    pub fn drain_once(&mut self) -> (r: Option<Result<(), OperatorError>>)
        ensures
            final(self).queue() == old(self).queue(),
    {
        let (mut queue_state, lock_handle) = (*self.queue).acquire_write();
        let next = queue_state.pop_front();
        lock_handle.release_write(queue_state);
        match next {
            Some(snapshot) => Some(self.operator.persist(snapshot)),
            None => None,
        }
    }
}

/// Pipeline order law. Snapshots are persisted strictly in push order: for
/// any snapshots pushed into an initially empty queue, the queue holds
/// exactly those snapshots in push order, and the `k`-th snapshot the
/// consumer takes — and so the `k`-th one handed to `persist`, since
/// [`StateHandle::drain_once`] persists what it pops, one at a time — is the
/// `k`-th snapshot pushed. `after_pushes` and `after_pops` iterate exactly
/// what `push_back` and `pop_front` state of the queue.
pub proof fn lemma_persist_order<S>(snapshots: Seq<S>)
    ensures
        after_pushes(Seq::<S>::empty(), snapshots) == snapshots,
        forall|k: int|
            0 <= k < snapshots.len() ==> (#[trigger] after_pops(snapshots, k))[0] == snapshots[k]
                && after_pops(snapshots, k).len() == snapshots.len() - k,
{
    lemma_pushes_append(Seq::<S>::empty(), snapshots);
    assert(Seq::<S>::empty() + snapshots =~= snapshots);
    assert forall|k: int| 0 <= k < snapshots.len() implies (#[trigger] after_pops(snapshots, k))[0]
        == snapshots[k] && after_pops(snapshots, k).len() == snapshots.len() - k by {
        lemma_pops_skip(snapshots, k);
    }
}

/// A state type for services that keep none: derived from any settings value.
pub struct NoState<Settings> {
    _marker: core::marker::PhantomData<Settings>,
}

impl<Settings> Clone for NoState<Settings> {
    /// The empty state again.
    fn clone(&self) -> (r: Self) {
        NoState { _marker: core::marker::PhantomData }
    }
}

impl<Settings> crate::service::ServiceState<Settings> for NoState<Settings> {
    closed spec fn spec_from_settings(_settings: Settings) -> Self {
        NoState { _marker: core::marker::PhantomData }
    }

    fn from_settings(_settings: &Settings) -> Self {
        NoState { _marker: core::marker::PhantomData }
    }
}

/// An operator for services that persist nothing: every persist succeeds and
/// discards the snapshot.
pub struct NoOperator<StateInput> {
    _marker: core::marker::PhantomData<StateInput>,
}

impl<StateInput> StateOperator<StateInput> for NoOperator<StateInput> {
    fn from_settings<Settings>(_settings: Settings) -> Self {
        NoOperator { _marker: core::marker::PhantomData }
    }

    fn persist(&mut self, _state: StateInput) -> Result<(), OperatorError> {
        Ok(())
    }
}

} // verus!
