//! The snapshot-diff engine: the minimal delta between a consumer's previous
//! snapshot and a freshly taken current one.
//!
//! `diff` is a pure function of its two inputs. The updated list carries
//! every record of the current snapshot whose key is new or whose record
//! changed in any field; the removed list carries every key of the previous
//! snapshot with no current record. Only two points in time are compared: a
//! key that disappears and reappears with different data between two
//! snapshots is reported purely as updated, never as removed-then-added.

use crate::assoc::{lemma_assoc_dom, lemma_assoc_index, unique_keys};
use crate::record::{RecordView, TopicRecord};
use crate::snapshot::Snapshot;
use vstd::prelude::*;

verus! {

/// Whether `r` must be reported as updated relative to the previous mapping:
/// its key is new, or the previous record under its key differs in some
/// field.
pub open spec fn record_changed(previous: Map<Seq<char>, RecordView>, r: TopicRecord) -> bool {
    !previous.dom().contains(r@.key) || previous[r@.key] != r@
}

/// The records of `entries` that are new or changed relative to `previous`,
/// in their order in `entries`.
pub open spec fn updated_of(
    previous: Map<Seq<char>, RecordView>,
    entries: Seq<TopicRecord>,
) -> Seq<TopicRecord>
    decreases entries.len(),
{
    if entries.len() == 0 {
        Seq::empty()
    } else {
        let rest = updated_of(previous, entries.drop_last());
        if record_changed(previous, entries.last()) {
            rest.push(entries.last())
        } else {
            rest
        }
    }
}

/// The keys of `entries` that have no record in the current mapping, in
/// their order in `entries`.
pub open spec fn removed_of(
    current: Map<Seq<char>, RecordView>,
    entries: Seq<TopicRecord>,
) -> Seq<String>
    decreases entries.len(),
{
    if entries.len() == 0 {
        Seq::empty()
    } else {
        let rest = removed_of(current, entries.drop_last());
        if !current.dom().contains(entries.last()@.key) {
            rest.push(entries.last().key)
        } else {
            rest
        }
    }
}

/// The updated list that diffing `current` against `previous` yields.
pub open spec fn diff_updated(previous: Snapshot, current: Snapshot) -> Seq<TopicRecord> {
    updated_of(previous@, current.records@)
}

/// The removed list that diffing `current` against `previous` yields.
pub open spec fn diff_removed(previous: Snapshot, current: Snapshot) -> Seq<String> {
    removed_of(current@, previous.records@)
}

/// One delta: the records new or changed since the previous snapshot, and
/// the keys gone from it. Both lists may be empty (a no-op delta); the
/// engine never signals an error.
pub struct Delta {
    pub updated: Vec<TopicRecord>,
    pub removed: Vec<String>,
}

impl Delta {
    /// Whether the delta reports nothing; a transport may skip sending such
    /// a delta as a bandwidth optimization.
    pub fn is_empty(&self) -> (r: bool)
        ensures
            r == (self.updated@.len() == 0 && self.removed@.len() == 0),
    {
        self.updated.is_empty() && self.removed.is_empty()
    }
}

/// The delta that brings a consumer holding `previous` up to `current`:
/// every record of `current` whose key is absent from `previous` or whose
/// record changed in any field goes to `updated`, and every key of
/// `previous` absent from `current` goes to `removed`.
pub fn diff(previous: &Snapshot, current: &Snapshot) -> (delta: Delta)
    requires
        previous.wf(),
        current.wf(),
    ensures
        delta.updated@ == diff_updated(*previous, *current),
        delta.removed@ == diff_removed(*previous, *current),
{
    let mut updated: Vec<TopicRecord> = Vec::new();
    let nc = current.records.len();
    let mut i: usize = 0;
    while i < nc
        invariant
            i <= nc,
            nc == current.records@.len(),
            previous.wf(),
            current.wf(),
            updated@ == updated_of(previous@, current.records@.take(i as int)),
        decreases nc - i,
    {
        let r = &current.records[i];
        let changed = match previous.get(&r.key) {
            Some(prev_rec) => !prev_rec.same_record(r),
            None => true,
        };
        if changed {
            updated.push(r.duplicate());
        }
        proof {
            assert(current.records@.take(i + 1).drop_last() =~= current.records@.take(i as int));
            assert(current.records@.take(i + 1).last() == current.records@[i as int]);
            assert(updated@ == updated_of(previous@, current.records@.take(i + 1)));
        }
        i = i + 1;
    }
    proof {
        assert(current.records@.take(nc as int) =~= current.records@);
    }
    let mut removed: Vec<String> = Vec::new();
    let np = previous.records.len();
    let mut j: usize = 0;
    while j < np
        invariant
            j <= np,
            np == previous.records@.len(),
            previous.wf(),
            current.wf(),
            removed@ == removed_of(current@, previous.records@.take(j as int)),
        decreases np - j,
    {
        let r = &previous.records[j];
        let gone = match current.get(&r.key) {
            Some(_) => false,
            None => true,
        };
        if gone {
            removed.push(r.key.clone());
        }
        proof {
            assert(previous.records@.take(j + 1).drop_last() =~= previous.records@.take(j as int));
            assert(previous.records@.take(j + 1).last() == previous.records@[j as int]);
            assert(removed@ == removed_of(current@, previous.records@.take(j + 1)));
        }
        j = j + 1;
    }
    proof {
        assert(previous.records@.take(np as int) =~= previous.records@);
    }
    Delta { updated, removed }
}

/// Every reported update is new or changed, and is one of the diffed
/// entries.
proof fn lemma_updated_elem(
    previous: Map<Seq<char>, RecordView>,
    entries: Seq<TopicRecord>,
    i: int,
)
    requires
        0 <= i < updated_of(previous, entries).len(),
    ensures
        record_changed(previous, updated_of(previous, entries)[i]),
        exists|j: int|
            0 <= j < entries.len() && #[trigger] entries[j] == updated_of(previous, entries)[i],
    decreases entries.len(),
{
    let u = updated_of(previous, entries);
    let prefix = entries.drop_last();
    let rest = updated_of(previous, prefix);
    if record_changed(previous, entries.last()) && i == rest.len() {
        assert(entries[entries.len() - 1] == u[i]);
    } else {
        lemma_updated_elem(previous, prefix, i);
        let j = choose|j: int|
            0 <= j < prefix.len() && #[trigger] prefix[j] == updated_of(previous, prefix)[i];
        assert(entries[j] == u[i]);
    }
}

/// Every new or changed entry is reported as updated.
proof fn lemma_updated_covers(
    previous: Map<Seq<char>, RecordView>,
    entries: Seq<TopicRecord>,
    j: int,
)
    requires
        0 <= j < entries.len(),
        record_changed(previous, entries[j]),
    ensures
        exists|i: int|
            0 <= i < updated_of(previous, entries).len() && #[trigger] updated_of(
                previous,
                entries,
            )[i] == entries[j],
    decreases entries.len(),
{
    let u = updated_of(previous, entries);
    let prefix = entries.drop_last();
    let rest = updated_of(previous, prefix);
    if j == entries.len() - 1 {
        assert(u[rest.len() as int] == entries[j]);
    } else {
        assert(prefix[j] == entries[j]);
        lemma_updated_covers(previous, prefix, j);
        let i = choose|i: int|
            0 <= i < rest.len() && #[trigger] updated_of(previous, prefix)[i] == prefix[j];
        assert(u[i] == entries[j]);
    }
}

/// With pairwise distinct keys among the entries, the updated list carries
/// pairwise distinct keys too.
proof fn lemma_updated_unique(previous: Map<Seq<char>, RecordView>, entries: Seq<TopicRecord>)
    requires
        unique_keys(entries, |r: TopicRecord| r@.key),
    ensures
        forall|i1: int, i2: int|
            0 <= i1 < i2 < updated_of(previous, entries).len() ==> (#[trigger] updated_of(
                previous,
                entries,
            )[i1])@.key != (#[trigger] updated_of(previous, entries)[i2])@.key,
    decreases entries.len(),
{
    if entries.len() > 0 {
        let u = updated_of(previous, entries);
        let prefix = entries.drop_last();
        let rest = updated_of(previous, prefix);
        assert(unique_keys(prefix, |r: TopicRecord| r@.key)) by {
            assert(forall|x: int, y: int|
                0 <= x < y < prefix.len() ==> prefix[x] == entries[x] && prefix[y] == entries[y]);
        }
        lemma_updated_unique(previous, prefix);
        if record_changed(previous, entries.last()) {
            assert forall|i: int| 0 <= i < rest.len() implies (#[trigger] rest[i])@.key
                != entries.last()@.key by {
                lemma_updated_elem(previous, prefix, i);
                let j = choose|j: int|
                    0 <= j < prefix.len() && #[trigger] prefix[j] == updated_of(previous, prefix)[i];
                assert(entries[j] == prefix[j]);
                assert(entries[entries.len() - 1] == entries.last());
            }
        }
    }
}

/// Every reported removal has no current record, and is the key of one of
/// the diffed entries.
proof fn lemma_removed_elem(
    current: Map<Seq<char>, RecordView>,
    entries: Seq<TopicRecord>,
    i: int,
)
    requires
        0 <= i < removed_of(current, entries).len(),
    ensures
        !current.dom().contains(removed_of(current, entries)[i]@),
        exists|j: int|
            0 <= j < entries.len() && #[trigger] entries[j].key == removed_of(current, entries)[i],
    decreases entries.len(),
{
    let r = removed_of(current, entries);
    let prefix = entries.drop_last();
    let rest = removed_of(current, prefix);
    if !current.dom().contains(entries.last()@.key) && i == rest.len() {
        assert(entries[entries.len() - 1].key == r[i]);
    } else {
        lemma_removed_elem(current, prefix, i);
        let j = choose|j: int|
            0 <= j < prefix.len() && #[trigger] prefix[j].key == removed_of(current, prefix)[i];
        assert(entries[j].key == r[i]);
    }
}

/// Every entry with no current record is reported as removed.
proof fn lemma_removed_covers(
    current: Map<Seq<char>, RecordView>,
    entries: Seq<TopicRecord>,
    j: int,
)
    requires
        0 <= j < entries.len(),
        !current.dom().contains(entries[j]@.key),
    ensures
        exists|i: int|
            0 <= i < removed_of(current, entries).len() && #[trigger] removed_of(current, entries)[i]
                == entries[j].key,
    decreases entries.len(),
{
    let r = removed_of(current, entries);
    let prefix = entries.drop_last();
    let rest = removed_of(current, prefix);
    if j == entries.len() - 1 {
        assert(r[rest.len() as int] == entries[j].key);
    } else {
        assert(prefix[j] == entries[j]);
        lemma_removed_covers(current, prefix, j);
        let i = choose|i: int|
            0 <= i < rest.len() && #[trigger] removed_of(current, prefix)[i] == prefix[j].key;
        assert(r[i] == entries[j].key);
    }
}

/// With pairwise distinct keys among the entries, the removed list carries
/// pairwise distinct keys too.
proof fn lemma_removed_unique(current: Map<Seq<char>, RecordView>, entries: Seq<TopicRecord>)
    requires
        unique_keys(entries, |r: TopicRecord| r@.key),
    ensures
        forall|i1: int, i2: int|
            0 <= i1 < i2 < removed_of(current, entries).len() ==> (#[trigger] removed_of(
                current,
                entries,
            )[i1])@ != (#[trigger] removed_of(current, entries)[i2])@,
    decreases entries.len(),
{
    if entries.len() > 0 {
        let r = removed_of(current, entries);
        let prefix = entries.drop_last();
        let rest = removed_of(current, prefix);
        assert(unique_keys(prefix, |r: TopicRecord| r@.key)) by {
            assert(forall|x: int, y: int|
                0 <= x < y < prefix.len() ==> prefix[x] == entries[x] && prefix[y] == entries[y]);
        }
        lemma_removed_unique(current, prefix);
        if !current.dom().contains(entries.last()@.key) {
            assert forall|i: int| 0 <= i < rest.len() implies (#[trigger] rest[i])@
                != entries.last()@.key by {
                lemma_removed_elem(current, prefix, i);
                let j = choose|j: int|
                    0 <= j < prefix.len() && #[trigger] prefix[j].key == removed_of(
                        current,
                        prefix,
                    )[i];
                assert(entries[j] == prefix[j]);
                assert(entries[entries.len() - 1] == entries.last());
            }
        }
    }
}

/// Idempotent diff: the delta is a function of the two snapshots alone, so
/// any two results that meet `diff`'s contract for the same pair of
/// snapshots are equal.
pub proof fn lemma_diff_deterministic(
    previous: Snapshot,
    current: Snapshot,
    updated1: Seq<TopicRecord>,
    removed1: Seq<String>,
    updated2: Seq<TopicRecord>,
    removed2: Seq<String>,
)
    requires
        updated1 == diff_updated(previous, current),
        removed1 == diff_removed(previous, current),
        updated2 == diff_updated(previous, current),
        removed2 == diff_removed(previous, current),
    ensures
        updated1 == updated2,
        removed1 == removed2,
{
}

/// No false removal: a key present in both snapshots with field-identical
/// records is reported neither as updated nor as removed.
pub proof fn lemma_no_false_removal(previous: Snapshot, current: Snapshot, k: Seq<char>)
    requires
        previous.wf(),
        current.wf(),
        previous@.dom().contains(k),
        current@.dom().contains(k),
        previous@[k] == current@[k],
    ensures
        forall|i: int|
            0 <= i < diff_updated(previous, current).len() ==> (#[trigger] diff_updated(
                previous,
                current,
            )[i])@.key != k,
        forall|i: int|
            0 <= i < diff_removed(previous, current).len() ==> (#[trigger] diff_removed(
                previous,
                current,
            )[i])@ != k,
{
    let key_of = |r: TopicRecord| r@.key;
    let val_of = |r: TopicRecord| r@;
    let u = diff_updated(previous, current);
    assert forall|i: int| 0 <= i < u.len() implies (#[trigger] u[i])@.key != k by {
        lemma_updated_elem(previous@, current.records@, i);
        if u[i]@.key == k {
            let j = choose|j: int|
                0 <= j < current.records@.len() && #[trigger] current.records@[j] == updated_of(
                    previous@,
                    current.records@,
                )[i];
            lemma_assoc_index(current.records@, key_of, val_of, j);
            assert(current@[k] == u[i]@);
            assert(false);
        }
    }
    let r = diff_removed(previous, current);
    assert forall|i: int| 0 <= i < r.len() implies (#[trigger] r[i])@ != k by {
        lemma_removed_elem(current@, previous.records@, i);
    }
}

/// Complete coverage: relative to the previous snapshot, every new or
/// changed record of the current snapshot appears exactly once in the
/// updated list; every key of the previous snapshot with no current record
/// appears exactly once in the removed list; and no key is reported both
/// ways.
pub proof fn lemma_complete_coverage(previous: Snapshot, current: Snapshot)
    requires
        previous.wf(),
        current.wf(),
    ensures
        forall|i: int|
            0 <= i < diff_updated(previous, current).len() ==> {
                let rec = #[trigger] diff_updated(previous, current)[i];
                current@.dom().contains(rec@.key) && current@[rec@.key] == rec@ && record_changed(
                    previous@,
                    rec,
                )
            },
        forall|k: Seq<char>|
            #[trigger] current@.dom().contains(k) && (!previous@.dom().contains(k) || previous@[k]
                != current@[k]) ==> exists|i: int|
                0 <= i < diff_updated(previous, current).len() && (#[trigger] diff_updated(
                    previous,
                    current,
                )[i])@.key == k,
        forall|i1: int, i2: int|
            0 <= i1 < i2 < diff_updated(previous, current).len() ==> (#[trigger] diff_updated(
                previous,
                current,
            )[i1])@.key != (#[trigger] diff_updated(previous, current)[i2])@.key,
        forall|i: int|
            0 <= i < diff_removed(previous, current).len() ==> previous@.dom().contains(
                (#[trigger] diff_removed(previous, current)[i])@,
            ) && !current@.dom().contains(diff_removed(previous, current)[i]@),
        forall|k: Seq<char>|
            #[trigger] previous@.dom().contains(k) && !current@.dom().contains(k) ==> exists|i: int|
                0 <= i < diff_removed(previous, current).len() && (#[trigger] diff_removed(
                    previous,
                    current,
                )[i])@ == k,
        forall|i1: int, i2: int|
            0 <= i1 < i2 < diff_removed(previous, current).len() ==> (#[trigger] diff_removed(
                previous,
                current,
            )[i1])@ != (#[trigger] diff_removed(previous, current)[i2])@,
        forall|i: int, j: int|
            0 <= i < diff_updated(previous, current).len() && 0 <= j < diff_removed(
                previous,
                current,
            ).len() ==> (#[trigger] diff_updated(previous, current)[i])@.key != (
            #[trigger] diff_removed(previous, current)[j])@,
{
    let key_of = |r: TopicRecord| r@.key;
    let val_of = |r: TopicRecord| r@;
    let u = diff_updated(previous, current);
    let r = diff_removed(previous, current);
    assert forall|i: int| 0 <= i < u.len() implies {
        let rec = #[trigger] u[i];
        current@.dom().contains(rec@.key) && current@[rec@.key] == rec@ && record_changed(
            previous@,
            rec,
        )
    } by {
        lemma_updated_elem(previous@, current.records@, i);
        let j = choose|j: int|
            0 <= j < current.records@.len() && #[trigger] current.records@[j] == updated_of(
                previous@,
                current.records@,
            )[i];
        lemma_assoc_index(current.records@, key_of, val_of, j);
    }
    assert forall|k: Seq<char>|
        #[trigger] current@.dom().contains(k) && (!previous@.dom().contains(k) || previous@[k]
            != current@[k]) implies exists|i: int|
        0 <= i < u.len() && (#[trigger] diff_updated(previous, current)[i])@.key == k by {
        lemma_assoc_dom(current.records@, key_of, val_of, k);
        let j = choose|j: int|
            0 <= j < current.records@.len() && key_of(#[trigger] current.records@[j]) == k;
        lemma_assoc_index(current.records@, key_of, val_of, j);
        lemma_updated_covers(previous@, current.records@, j);
        let i = choose|i: int|
            0 <= i < updated_of(previous@, current.records@).len() && #[trigger] updated_of(
                previous@,
                current.records@,
            )[i] == current.records@[j];
        assert(diff_updated(previous, current)[i]@.key == k);
    }
    lemma_updated_unique(previous@, current.records@);
    assert forall|i: int| 0 <= i < r.len() implies previous@.dom().contains(
        (#[trigger] r[i])@,
    ) && !current@.dom().contains(r[i]@) by {
        lemma_removed_elem(current@, previous.records@, i);
        let j = choose|j: int|
            0 <= j < previous.records@.len() && #[trigger] previous.records@[j].key == removed_of(
                current@,
                previous.records@,
            )[i];
        lemma_assoc_index(previous.records@, key_of, val_of, j);
    }
    assert forall|k: Seq<char>|
        #[trigger] previous@.dom().contains(k) && !current@.dom().contains(k) implies exists|i: int|
        0 <= i < r.len() && (#[trigger] diff_removed(previous, current)[i])@ == k by {
        lemma_assoc_dom(previous.records@, key_of, val_of, k);
        let j = choose|j: int|
            0 <= j < previous.records@.len() && key_of(#[trigger] previous.records@[j]) == k;
        lemma_removed_covers(current@, previous.records@, j);
        let i = choose|i: int|
            0 <= i < removed_of(current@, previous.records@).len() && #[trigger] removed_of(
                current@,
                previous.records@,
            )[i] == previous.records@[j].key;
        assert(diff_removed(previous, current)[i]@ == k);
    }
    lemma_removed_unique(current@, previous.records@);
}

} // verus!
