//! Last-write-wins settings broadcast.
//!
//! One writer ([`SettingsUpdater`]) and any number of readers
//! ([`SettingsNotifier`]) share a single cell holding exactly the most
//! recently published value. A publish replaces the cell's value wholesale;
//! no history is queued, so a reader that polls after two publishes observes
//! only the later one. [`cell_after`] is the cell's write model, and
//! [`lemma_last_write_wins`] proves that after any non-empty run of publishes
//! every reader's next poll sees the last published value, whatever it read
//! before and however many readers exist.

use std::sync::Arc;
use vstd::prelude::*;
use vstd::rwlock::{RwLock, RwLockPredicate};

verus! {

/// Lock invariant of the settings cell: any value of the settings type may be
/// stored.
pub struct AnySettings;

impl<T> RwLockPredicate<T> for AnySettings {
    open spec fn inv(self, v: T) -> bool {
        true
    }
}

/// What one publish leaves in the cell: the published value, whatever was
/// there before.
pub open spec fn publish_model<T>(_current: T, published: T) -> T {
    published
}

/// The cell's value after a run of publishes, oldest first, applied to
/// `initial`.
pub open spec fn cell_after<T>(initial: T, writes: Seq<T>) -> T
    decreases writes.len(),
{
    if writes.len() == 0 {
        initial
    } else {
        cell_after(publish_model(initial, writes.first()), writes.drop_first())
    }
}

/// What a reader's next poll returns: the cell's current value. The reader's
/// identity plays no part — every reader of one cell polls the same value.
pub open spec fn read_model<T>(cell: T, reader: nat) -> T {
    cell
}

/// Last write wins: after any non-empty run of publishes, every reader's
/// next poll returns exactly the last published value — independently of the
/// initial value, of every intermediate publish, of which reader polls, and
/// of how many readers exist.
pub proof fn lemma_last_write_wins<T>(initial: T, writes: Seq<T>)
    requires
        writes.len() > 0,
    ensures
        cell_after(initial, writes) == writes.last(),
        forall|reader: nat|
            #[trigger] read_model(cell_after(initial, writes), reader) == writes.last(),
    decreases writes.len(),
{
    if writes.len() == 1 {
        assert(cell_after(initial, writes)
            == cell_after(publish_model(initial, writes.first()), writes.drop_first()));
        assert(writes.drop_first().len() == 0);
    } else {
        lemma_last_write_wins(publish_model(initial, writes.first()), writes.drop_first());
        assert(writes.drop_first().last() == writes.last());
    }
}

/// The single writer of a settings cell; also the template from which readers
/// are subscribed.
pub struct SettingsUpdater<T> {
    cell: Arc<RwLock<T, AnySettings>>,
}

/// A non-suspending reader of the settings cell. Cloning yields an
/// independent reader of the same cell.
pub struct SettingsNotifier<T> {
    cell: Arc<RwLock<T, AnySettings>>,
}

impl<T> SettingsUpdater<T> {
    /// The shared cell this writer publishes to.
    pub closed spec fn cell(self) -> RwLock<T, AnySettings> {
        *self.cell
    }

    /// Open a settings cell seeded with `initial`.
    pub fn new(initial: T) -> (s: Self) {
        SettingsUpdater { cell: Arc::new(RwLock::new(initial, Ghost(AnySettings))) }
    }

    /// Publish `settings`, replacing the visible value atomically: every
    /// reader's next poll returns it (until a later publish). The replaced
    /// value is discarded — the cell keeps no history.
    pub fn update(&self, settings: T) {
        let (_, lock_handle) = (*self.cell).acquire_write();
        lock_handle.release_write(settings);
    }

    /// Subscribe a fresh reader of this writer's cell.
    pub fn notifier(&self) -> (r: SettingsNotifier<T>)
        ensures
            r.cell() == self.cell(),
    {
        SettingsNotifier { cell: self.cell.clone() }
    }
}

impl<T: Clone> SettingsNotifier<T> {
    /// Poll the cell without suspending: a copy of the most recently
    /// published value as of this call.
    pub fn get_updated_settings(&self) -> T {
        let read_handle = (*self.cell).acquire_read();
        let current = read_handle.borrow().clone();
        read_handle.release_read();
        current
    }
}

impl<T> SettingsNotifier<T> {
    /// The shared cell this reader polls.
    pub closed spec fn cell(self) -> RwLock<T, AnySettings> {
        *self.cell
    }
}

impl<T> Clone for SettingsNotifier<T> {
    /// Another independent reader of the same cell.
    fn clone(&self) -> (r: Self)
        ensures
            r.cell() == self.cell(),
    {
        SettingsNotifier { cell: self.cell.clone() }
    }
}

} // verus!
