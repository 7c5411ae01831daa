//! Point-in-time copies of the store's topic mapping.
//!
//! A consumer owns one [`Snapshot`]: the full copy of the store's records as
//! observed at its last diff computation. A snapshot is an independent value;
//! nothing a consumer does to it can reach the live store or another
//! consumer's snapshot.

use crate::assoc::{assoc_map, unique_keys};
use crate::record::{RecordView, TopicRecord};
use vstd::prelude::*;

verus! {

/// An independent, point-in-time copy of the topic mapping: one record per
/// topic key.
pub struct Snapshot {
    pub records: Vec<TopicRecord>,
}

impl View for Snapshot {
    type V = Map<Seq<char>, RecordView>;

    open spec fn view(&self) -> Map<Seq<char>, RecordView> {
        assoc_map(self.records@, |r: TopicRecord| r@.key, |r: TopicRecord| r@)
    }
}

impl Snapshot {
    /// At most one record per topic key.
    pub open spec fn wf(&self) -> bool {
        unique_keys(self.records@, |r: TopicRecord| r@.key)
    }

    /// The empty snapshot every consumer starts from at subscription time.
    pub fn new() -> (snap: Self)
        ensures
            snap.wf(),
            snap@ == Map::<Seq<char>, RecordView>::empty(),
            snap.records@ == Seq::<TopicRecord>::empty(),
    {
        Snapshot { records: Vec::new() }
    }

    /// The record held for `key`, if the snapshot has one.
    pub fn get(&self, key: &String) -> (r: Option<&TopicRecord>)
        requires
            self.wf(),
        ensures
            match r {
                Some(rec) => self@.dom().contains(key@) && rec@ == self@[key@],
                None => !self@.dom().contains(key@),
            },
    {
        let n = self.records.len();
        let mut i: usize = 0;
        while i < n
            invariant
                i <= n,
                n == self.records@.len(),
                self.wf(),
                forall|j: int| 0 <= j < i ==> (#[trigger] self.records@[j])@.key != key@,
            decreases n - i,
        {
            if self.records[i].key == *key {
                proof {
                    crate::assoc::lemma_assoc_index(
                        self.records@,
                        |r: TopicRecord| r@.key,
                        |r: TopicRecord| r@,
                        i as int,
                    );
                }
                return Some(&self.records[i]);
            }
            i = i + 1;
        }
        proof {
            crate::assoc::lemma_assoc_dom(
                self.records@,
                |r: TopicRecord| r@.key,
                |r: TopicRecord| r@,
                key@,
            );
        }
        None
    }
}

} // verus!
