//! The topic state store: the mapping from topic key to its latest record,
//! together with the rate estimator's per-topic histories.
//!
//! The store offers two operations: `ingest`, which records one observation
//! and replaces the key's record, and `snapshot`, which hands out an
//! independent copy of the whole mapping. A host that serves concurrent
//! consumers serializes calls on a shared store (one writer, many readers);
//! each call here is one such atomic step.

use crate::assoc::{
    assoc_map, lemma_assoc_dom, lemma_assoc_index, lemma_assoc_push, lemma_assoc_update,
    unique_keys,
};
use crate::rate::{observed_history, rate_millihz, HistoryView, RateEstimator};
use crate::record::{RecordView, TopicRecord};
use crate::snapshot::Snapshot;
use vstd::prelude::*;

verus! {

/// The record that one ingested observation leaves in the store: the
/// observation's own fields, plus the frequency estimate that the key's
/// history yields after this observation.
pub open spec fn ingested_record(
    histories: Map<Seq<char>, HistoryView>,
    key: Seq<char>,
    size_bytes: u64,
    timestamp: u64,
    decoded_content: Option<Seq<char>>,
    window: nat,
) -> RecordView {
    RecordView {
        key: key,
        size_bytes: size_bytes,
        received_at: timestamp,
        decoded_content: decoded_content,
        estimated_hz_millihz: rate_millihz(
            observed_history(histories, key, timestamp, window).deltas,
        ) as u64,
    }
}

/// The topic state store: at most one record per key, and the per-key
/// interval histories that back the frequency estimates.
pub struct TopicStore {
    pub estimator: RateEstimator,
    pub records: Vec<TopicRecord>,
}

impl TopicStore {
    /// The stored records as a mapping from topic key to record.
    pub open spec fn records_map(&self) -> Map<Seq<char>, RecordView> {
        assoc_map(self.records@, |r: TopicRecord| r@.key, |r: TopicRecord| r@)
    }

    /// The rate estimator's histories as a mapping from topic key to history.
    pub open spec fn history_map(&self) -> Map<Seq<char>, HistoryView> {
        self.estimator.history_map()
    }

    /// The window size every topic's rate estimate is computed over.
    pub open spec fn window_size(&self) -> usize {
        self.estimator.window_size
    }

    /// At most one record per key, and a well-formed estimator.
    pub open spec fn wf(&self) -> bool {
        &&& self.estimator.wf()
        &&& unique_keys(self.records@, |r: TopicRecord| r@.key)
    }

    /// An empty store whose rate estimates use a window of `window_size`
    /// gaps.
    pub fn new(window_size: usize) -> (store: Self)
        ensures
            store.wf(),
            store.window_size() == window_size,
            store.records_map() == Map::<Seq<char>, RecordView>::empty(),
            store.history_map() == Map::<Seq<char>, HistoryView>::empty(),
    {
        TopicStore { estimator: RateEstimator::new(window_size), records: Vec::new() }
    }

    /// The position of `key`'s record, if the store has one.
    fn find_record(records: &Vec<TopicRecord>, key: &String) -> (r: Option<usize>)
        ensures
            match r {
                Some(i) => i < records@.len() && records@[i as int]@.key == key@,
                None => forall|j: int|
                    0 <= j < records@.len() ==> (#[trigger] records@[j])@.key != key@,
            },
    {
        let n = records.len();
        let mut i: usize = 0;
        while i < n
            invariant
                i <= n,
                n == records@.len(),
                forall|j: int| 0 <= j < i ==> (#[trigger] records@[j])@.key != key@,
            decreases n - i,
        {
            if records[i].key == *key {
                return Some(i);
            }
            i = i + 1;
        }
        None
    }

    /// Record one observation: update `key`'s interval history, derive the
    /// new frequency estimate, and replace any prior record for `key` with
    /// one holding the observation's size, timestamp and decoded content.
    /// Always succeeds; an out-of-order timestamp is accepted and leaves the
    /// rate window untouched.
    pub fn ingest(
        &mut self,
        key: String,
        size_bytes: u64,
        timestamp: u64,
        decoded_content: Option<String>,
    )
        requires
            old(self).wf(),
        ensures
            final(self).wf(),
            final(self).window_size() == old(self).window_size(),
            final(self).history_map() == old(self).history_map().insert(
                key@,
                observed_history(
                    old(self).history_map(),
                    key@,
                    timestamp,
                    old(self).window_size() as nat,
                ),
            ),
            final(self).records_map() == old(self).records_map().insert(
                key@,
                ingested_record(
                    old(self).history_map(),
                    key@,
                    size_bytes,
                    timestamp,
                    match decoded_content {
                        Some(s) => Some(s@),
                        None => None,
                    },
                    old(self).window_size() as nat,
                ),
            ),
    {
        let ghost key_of = |r: TopicRecord| r@.key;
        let ghost val_of = |r: TopicRecord| r@;
        let ghost decoded_view: Option<Seq<char>> = match &decoded_content {
            Some(s) => Some(s@),
            None => None,
        };
        let hz = self.estimator.observe(&key, timestamp);
        let record = TopicRecord {
            key,
            size_bytes,
            received_at: timestamp,
            decoded_content,
            estimated_hz_millihz: hz,
        };
        let ghost record_view = ingested_record(
            old(self).history_map(),
            record.key@,
            size_bytes,
            timestamp,
            decoded_view,
            old(self).window_size() as nat,
        );
        proof {
            assert(record@ =~= record_view);
        }
        match Self::find_record(&self.records, &record.key) {
            Some(i) => {
                proof {
                    lemma_assoc_update(self.records@, key_of, val_of, i as int, record);
                }
                self.records[i] = record;
            },
            None => {
                proof {
                    lemma_assoc_dom(self.records@, key_of, val_of, record.key@);
                    lemma_assoc_push(self.records@, key_of, val_of, record);
                    let pushed = self.records@.push(record);
                    assert(unique_keys(pushed, key_of)) by {
                        assert(forall|x: int|
                            0 <= x < self.records@.len() ==> key_of(#[trigger] pushed[x]) != key_of(
                                record,
                            ) && pushed[x] == self.records@[x]);
                    }
                }
                self.records.push(record);
            },
        }
    }

    /// An independent, point-in-time copy of the full topic mapping, safe for
    /// the caller to retain and mutate without affecting the live store.
    pub fn snapshot(&self) -> (snap: Snapshot)
        requires
            self.wf(),
        ensures
            snap.wf(),
            snap.records@ == self.records@,
            snap@ == self.records_map(),
    {
        let n = self.records.len();
        let mut out: Vec<TopicRecord> = Vec::new();
        let mut i: usize = 0;
        while i < n
            invariant
                i <= n,
                n == self.records@.len(),
                out@ == self.records@.take(i as int),
            decreases n - i,
        {
            out.push(self.records[i].duplicate());
            proof {
                assert(out@ =~= self.records@.take(i + 1));
            }
            i = i + 1;
        }
        proof {
            assert(self.records@.take(n as int) =~= self.records@);
        }
        Snapshot { records: out }
    }
}

} // verus!
