//! One connected consumer's delivery state.
//!
//! Each consumer owns a private previous snapshot, updated only by its own
//! delivery loop: on every tick the host takes a fresh snapshot of the store,
//! asks the consumer for the delta since its previous one, and pushes that
//! delta as one message. Consumers never share mutable state with each other;
//! they meet only at the store.

use crate::diff::{diff, diff_removed, diff_updated, Delta};
use crate::record::{RecordView, TopicRecord};
use crate::snapshot::Snapshot;
use vstd::prelude::*;

verus! {

/// A consumer's delivery state: the snapshot its last delta was computed
/// against. Created empty at subscription time, replaced wholesale after
/// every diff computation, discarded when the consumer disconnects.
pub struct Consumer {
    pub previous: Snapshot,
}

impl Consumer {
    /// A consumer that has seen nothing yet: its first delta reports every
    /// record of the first snapshot as updated.
    pub fn new() -> (c: Self)
        ensures
            c.previous.wf(),
            c.previous@ == Map::<Seq<char>, RecordView>::empty(),
            c.previous.records@ == Seq::<TopicRecord>::empty(),
    {
        Consumer { previous: Snapshot::new() }
    }

    /// One delivery tick: compute the delta that brings this consumer from
    /// its previous snapshot up to `current`, and adopt `current` as the new
    /// previous snapshot.
    pub fn tick(&mut self, current: Snapshot) -> (delta: Delta)
        requires
            old(self).previous.wf(),
            current.wf(),
        ensures
            delta.updated@ == diff_updated(old(self).previous, current),
            delta.removed@ == diff_removed(old(self).previous, current),
            final(self).previous == current,
    {
        let delta = diff(&self.previous, &current);
        self.previous = current;
        delta
    }
}

} // verus!
