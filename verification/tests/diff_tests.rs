//! Tests for the snapshot-diff engine and the store around it.

use topic_monitor::consumer::Consumer;
use topic_monitor::diff::diff;
use topic_monitor::rate::DEFAULT_WINDOW_SIZE;
use topic_monitor::record::TopicRecord;
use topic_monitor::snapshot::Snapshot;
use topic_monitor::store::TopicStore;

fn record(key: &str, size: u64, at: u64) -> TopicRecord {
    TopicRecord {
        key: String::from(key),
        size_bytes: size,
        received_at: at,
        decoded_content: None,
        estimated_hz_millihz: 0,
    }
}

fn snapshot_of(records: Vec<TopicRecord>) -> Snapshot {
    Snapshot { records }
}

fn updated_keys(updated: &[TopicRecord]) -> Vec<String> {
    updated.iter().map(|r| r.key.clone()).collect()
}

#[test]
fn diff_is_idempotent() {
    // The same pair of snapshots diffed twice yields the same delta.
    let prev = snapshot_of(vec![record("a", 1, 10), record("b", 2, 20)]);
    let cur = snapshot_of(vec![record("b", 3, 30), record("c", 4, 40)]);
    let d1 = diff(&prev, &cur);
    let d2 = diff(&prev, &cur);
    assert_eq!(updated_keys(&d1.updated), updated_keys(&d2.updated));
    assert_eq!(d1.removed, d2.removed);
    for (r1, r2) in d1.updated.iter().zip(d2.updated.iter()) {
        assert!(r1.same_record(r2));
    }
}

#[test]
fn no_false_removal() {
    // A key present in both snapshots with field-identical records appears in
    // neither list.
    let prev = snapshot_of(vec![record("same", 5, 100), record("gone", 1, 10)]);
    let cur = snapshot_of(vec![record("same", 5, 100), record("new", 2, 20)]);
    let d = diff(&prev, &cur);
    assert!(!updated_keys(&d.updated).contains(&String::from("same")));
    assert!(!d.removed.contains(&String::from("same")));
}

#[test]
fn complete_coverage() {
    // Every new or changed key appears exactly once in updated; every key
    // absent from the current snapshot appears exactly once in removed; no
    // key appears in both lists.
    let prev = snapshot_of(vec![
        record("kept", 1, 10),
        record("changed", 2, 20),
        record("gone", 3, 30),
    ]);
    let cur = snapshot_of(vec![
        record("kept", 1, 10),
        record("changed", 2, 99),
        record("fresh", 4, 40),
    ]);
    let d = diff(&prev, &cur);
    let keys = updated_keys(&d.updated);
    assert_eq!(keys.iter().filter(|k| *k == "changed").count(), 1);
    assert_eq!(keys.iter().filter(|k| *k == "fresh").count(), 1);
    assert_eq!(keys.len(), 2);
    assert_eq!(d.removed, vec![String::from("gone")]);
    for k in &keys {
        assert!(!d.removed.contains(k));
    }
}

#[test]
fn changed_timestamp_alone_is_a_change() {
    // Freshness matters: a record differing only in received_at is updated.
    let prev = snapshot_of(vec![record("a", 1, 10)]);
    let cur = snapshot_of(vec![record("a", 1, 11)]);
    let d = diff(&prev, &cur);
    assert_eq!(updated_keys(&d.updated), vec![String::from("a")]);
    assert!(d.removed.is_empty());
}

#[test]
fn changed_decoded_content_is_a_change() {
    let mut with_content = record("a", 1, 10);
    with_content.decoded_content = Some(String::from("text"));
    let prev = snapshot_of(vec![record("a", 1, 10)]);
    let cur = snapshot_of(vec![with_content]);
    let d = diff(&prev, &cur);
    assert_eq!(updated_keys(&d.updated), vec![String::from("a")]);
    assert_eq!(d.updated[0].decoded_content, Some(String::from("text")));
}

#[test]
fn equal_snapshots_give_empty_delta() {
    let prev = snapshot_of(vec![record("a", 1, 10), record("b", 2, 20)]);
    let cur = snapshot_of(vec![record("a", 1, 10), record("b", 2, 20)]);
    let d = diff(&prev, &cur);
    assert!(d.is_empty());
}

#[test]
fn empty_snapshots_give_empty_delta() {
    let d = diff(&Snapshot::new(), &Snapshot::new());
    assert!(d.is_empty());
    assert!(d.updated.is_empty());
    assert!(d.removed.is_empty());
}

#[test]
fn disappear_and_reappear_is_only_an_update() {
    // Only two points in time are compared: a key that vanished and came back
    // with different data between two snapshots is reported purely as
    // updated, never as removed-then-added.
    let prev = snapshot_of(vec![record("k", 1, 10)]);
    let cur = snapshot_of(vec![record("k", 9, 90)]);
    let d = diff(&prev, &cur);
    assert_eq!(updated_keys(&d.updated), vec![String::from("k")]);
    assert!(d.removed.is_empty());
}

#[test]
fn end_to_end_delta_scenario() {
    // Store starts empty. Snapshot before the first ingest is empty; after
    // ingesting ("a", 10, 1000, none) the next snapshot carries one record,
    // reported as updated. Once "a" is externally purged, diffing against the
    // now-empty view reports it as removed.
    let mut store = TopicStore::new(DEFAULT_WINDOW_SIZE);
    let mut consumer = Consumer::new();

    let snapshot1 = store.snapshot();
    let d0 = consumer.tick(snapshot1);
    assert!(d0.is_empty());

    store.ingest(String::from("a"), 10, 1000, None);
    let snapshot2 = store.snapshot();
    let d1 = consumer.tick(snapshot2);
    assert_eq!(d1.updated.len(), 1);
    assert_eq!(d1.updated[0].key, "a");
    assert_eq!(d1.updated[0].size_bytes, 10);
    assert_eq!(d1.updated[0].received_at, 1000);
    assert_eq!(d1.updated[0].decoded_content, None);
    assert_eq!(d1.updated[0].estimated_hz_millihz, 0);
    assert!(d1.removed.is_empty());

    // "a" never re-ingested and externally purged from the store.
    let snapshot3 = Snapshot::new();
    let d2 = consumer.tick(snapshot3);
    assert!(d2.updated.is_empty());
    assert_eq!(d2.removed, vec![String::from("a")]);
}

#[test]
fn snapshot_isolation() {
    // Mutating a snapshot never reaches the live store or another consumer's
    // earlier snapshot.
    let mut store = TopicStore::new(DEFAULT_WINDOW_SIZE);
    store.ingest(String::from("a"), 10, 1000, None);
    let earlier = store.snapshot();

    let mut mutated = store.snapshot();
    mutated.records.clear();
    mutated.records.push(record("intruder", 7, 70));

    let fresh = store.snapshot();
    assert_eq!(fresh.records.len(), 1);
    assert_eq!(fresh.records[0].key, "a");
    assert_eq!(fresh.records[0].size_bytes, 10);
    assert_eq!(earlier.records.len(), 1);
    assert_eq!(earlier.records[0].key, "a");
}

#[test]
fn ingest_replaces_prior_record() {
    let mut store = TopicStore::new(DEFAULT_WINDOW_SIZE);
    store.ingest(String::from("a"), 10, 1000, None);
    store.ingest(String::from("a"), 20, 1100, Some(String::from("payload")));
    let snap = store.snapshot();
    assert_eq!(snap.records.len(), 1);
    assert_eq!(snap.records[0].size_bytes, 20);
    assert_eq!(snap.records[0].received_at, 1100);
    assert_eq!(snap.records[0].decoded_content, Some(String::from("payload")));
    // one gap of 100 ms -> 10 Hz
    assert_eq!(snap.records[0].estimated_hz_millihz, 10_000);
}

#[test]
fn store_serves_independent_consumers() {
    // Two consumers on their own cadences each see a delta relative to their
    // own previous snapshot.
    let mut store = TopicStore::new(DEFAULT_WINDOW_SIZE);
    let mut fast = Consumer::new();
    let mut slow = Consumer::new();

    store.ingest(String::from("a"), 1, 1000, None);
    let d_fast1 = fast.tick(store.snapshot());
    assert_eq!(d_fast1.updated.len(), 1);

    store.ingest(String::from("b"), 2, 2000, None);
    let d_fast2 = fast.tick(store.snapshot());
    assert_eq!(updated_keys(&d_fast2.updated), vec![String::from("b")]);

    // The slow consumer sees both topics at once on its first tick.
    let d_slow = slow.tick(store.snapshot());
    let mut keys = updated_keys(&d_slow.updated);
    keys.sort();
    assert_eq!(keys, vec![String::from("a"), String::from("b")]);
}
