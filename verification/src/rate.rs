//! Per-topic rate estimation: a bounded FIFO window of inter-arrival gaps and
//! the frequency estimate derived from it.
//!
//! Each topic key owns one [`IntervalHistory`]. A new observation at a
//! strictly later timestamp appends the gap since the previous observation to
//! the window, evicting the oldest gap once the window is full; an
//! out-of-order or duplicate-timestamp observation is accepted but leaves the
//! window untouched. The estimate is the inverse of the mean gap, kept in
//! integer millihertz so that the computation is exact.

use vstd::prelude::*;

verus! {

/// Default number of inter-arrival gaps kept per topic.
pub const DEFAULT_WINDOW_SIZE: usize = 20;

/// Mathematical image of an [`IntervalHistory`]: the timestamp of the most
/// recent observation and the window of recent gaps, oldest first.
#[verifier::ext_equal]
pub struct HistoryView {
    pub last_seen: u64,
    pub deltas: Seq<u64>,
}

/// Sum of all gaps in a window, in milliseconds.
pub open spec fn sum_of(deltas: Seq<u64>) -> nat
    decreases deltas.len(),
{
    if deltas.len() == 0 {
        0
    } else {
        sum_of(deltas.drop_last()) + deltas.last() as nat
    }
}

/// The frequency estimate for a window of gaps, in millihertz: 0 for an empty
/// window (no inter-arrival interval observed yet) and for the degenerate
/// all-zero window, otherwise 1000 events per second divided by the mean gap
/// in milliseconds, rounded down.
pub open spec fn rate_millihz(deltas: Seq<u64>) -> nat {
    if deltas.len() == 0 || sum_of(deltas) == 0 {
        0
    } else {
        (1_000_000 * deltas.len()) / sum_of(deltas)
    }
}

/// How one observation at `timestamp` changes a window of gaps: a strictly
/// later observation appends the new gap and evicts the oldest entry once the
/// window would exceed `window` entries; any other observation leaves the
/// window untouched.
pub open spec fn step_window(deltas: Seq<u64>, last_seen: u64, timestamp: u64, window: nat) -> Seq<
    u64,
> {
    if timestamp > last_seen {
        let grown = deltas.push((timestamp - last_seen) as u64);
        if grown.len() > window {
            grown.subrange(1, grown.len() as int)
        } else {
            grown
        }
    } else {
        deltas
    }
}

/// How one observation at `timestamp` changes a whole history: the window
/// steps as [`step_window`] says, and `last_seen` moves to `timestamp`
/// unconditionally.
pub open spec fn step_history(h: HistoryView, timestamp: u64, window: nat) -> HistoryView {
    HistoryView {
        last_seen: timestamp,
        deltas: step_window(h.deltas, h.last_seen, timestamp, window),
    }
}

/// The history obtained by observing the timestamps in `timestamps` in order,
/// starting from a fresh history seeded with the first of them.
pub open spec fn history_after(timestamps: Seq<u64>, window: nat) -> HistoryView
    decreases timestamps.len(),
{
    if timestamps.len() == 0 {
        HistoryView { last_seen: 0, deltas: Seq::empty() }
    } else if timestamps.len() == 1 {
        HistoryView { last_seen: timestamps[0], deltas: Seq::empty() }
    } else {
        step_history(history_after(timestamps.drop_last(), window), timestamps.last(), window)
    }
}

/// Timestamps that arrive in strictly increasing order.
pub open spec fn strictly_increasing(timestamps: Seq<u64>) -> bool {
    forall|i: int, j: int| 0 <= i < j < timestamps.len() ==> timestamps[i] < timestamps[j]
}

/// Per-topic state of the rate estimator: the previous observation's
/// timestamp and a bounded FIFO of the most recent inter-arrival gaps.
pub struct IntervalHistory {
    pub last_seen: u64,
    pub deltas: Vec<u64>,
}

impl View for IntervalHistory {
    type V = HistoryView;

    open spec fn view(&self) -> HistoryView {
        HistoryView { last_seen: self.last_seen, deltas: self.deltas@ }
    }
}

impl IntervalHistory {
    /// Every recorded gap comes from a strictly later observation, so each is
    /// at least one millisecond.
    pub open spec fn wf(&self) -> bool {
        forall|i: int| 0 <= i < self.deltas@.len() ==> self.deltas@[i] >= 1
    }

    /// A fresh history, seeded with the first observation's timestamp and an
    /// empty window.
    pub fn new(timestamp: u64) -> (h: Self)
        ensures
            h@ == (HistoryView { last_seen: timestamp, deltas: Seq::<u64>::empty() }),
            h.wf(),
    {
        IntervalHistory { last_seen: timestamp, deltas: Vec::new() }
    }

    /// Record one observation at `timestamp` against a window of at most
    /// `window` gaps.
    pub fn observe(&mut self, timestamp: u64, window: usize)
        requires
            old(self).wf(),
        ensures
            final(self)@ == step_history(old(self)@, timestamp, window as nat),
            final(self).wf(),
    {
        if timestamp > self.last_seen {
            let delta = timestamp - self.last_seen;
            self.deltas.push(delta);
            if self.deltas.len() > window {
                self.deltas.remove(0);
                proof {
                    let grown = old(self).deltas@.push(delta);
                    assert(self.deltas@ =~= grown.subrange(1, grown.len() as int));
                }
            }
        }
        self.last_seen = timestamp;
        proof {
            assert(self@ =~= step_history(old(self)@, timestamp, window as nat));
        }
    }

    /// The current frequency estimate in millihertz, derived from the window
    /// alone.
    pub fn estimated_rate_millihz(&self) -> (hz: u64)
        requires
            self.wf(),
        ensures
            hz == rate_millihz(self@.deltas),
            hz <= 1_000_000,
    {
        let n = self.deltas.len();
        if n == 0 {
            return 0;
        }
        let mut sum: u128 = 0;
        let mut i: usize = 0;
        while i < n
            invariant
                i <= n,
                n == self.deltas@.len(),
                self.wf(),
                sum == sum_of(self.deltas@.take(i as int)),
                sum >= i,
                sum <= i * 0xffff_ffff_ffff_ffffu64,
            decreases n - i,
        {
            proof {
                lemma_sum_take_succ(self.deltas@, i as int);
            }
            sum = sum + self.deltas[i] as u128;
            i = i + 1;
        }
        proof {
            assert(self.deltas@.take(n as int) =~= self.deltas@);
        }
        if sum == 0 {
            return 0;
        }
        let hz_wide: u128 = (1_000_000u128 * (n as u128)) / sum;
        proof {
            vstd::arithmetic::div_mod::lemma_div_is_ordered(
                1_000_000 * (n as int),
                1_000_000 * (sum as int),
                sum as int,
            );
            vstd::arithmetic::div_mod::lemma_div_by_multiple(1_000_000, sum as int);
        }
        hz_wide as u64
    }
}

/// One topic key's slot in the rate estimator.
pub struct HistEntry {
    pub key: String,
    pub hist: IntervalHistory,
}

/// The history that an observation at `timestamp` starts from: the key's
/// recorded history, or a fresh one seeded with `timestamp` for a key never
/// seen before.
pub open spec fn seeded_history(
    histories: Map<Seq<char>, HistoryView>,
    key: Seq<char>,
    timestamp: u64,
) -> HistoryView {
    if histories.dom().contains(key) {
        histories[key]
    } else {
        HistoryView { last_seen: timestamp, deltas: Seq::empty() }
    }
}

/// The history recorded for `key` after one observation at `timestamp`.
pub open spec fn observed_history(
    histories: Map<Seq<char>, HistoryView>,
    key: Seq<char>,
    timestamp: u64,
    window: nat,
) -> HistoryView {
    step_history(seeded_history(histories, key, timestamp), timestamp, window)
}

/// The rate estimator: one bounded window of inter-arrival gaps per topic
/// key, and the window size every topic shares.
pub struct RateEstimator {
    pub window_size: usize,
    pub entries: Vec<HistEntry>,
}

impl RateEstimator {
    /// The per-key histories as a mapping.
    pub open spec fn history_map(&self) -> Map<Seq<char>, HistoryView> {
        crate::assoc::assoc_map(self.entries@, |e: HistEntry| e.key@, |e: HistEntry| e.hist@)
    }

    /// Keys are pairwise distinct, every history is well formed, and no
    /// window exceeds the estimator's bound.
    pub open spec fn wf(&self) -> bool {
        &&& crate::assoc::unique_keys(self.entries@, |e: HistEntry| e.key@)
        &&& forall|i: int|
            0 <= i < self.entries@.len() ==> (#[trigger] self.entries@[i]).hist.wf()
        &&& forall|i: int|
            0 <= i < self.entries@.len() ==> (#[trigger] self.entries@[i]).hist@.deltas.len()
                <= self.window_size
    }

    /// An estimator with no topics yet, keeping at most `window_size` gaps
    /// per topic. A window size of zero degenerates to "no rate estimation":
    /// every estimate stays 0.
    pub fn new(window_size: usize) -> (est: Self)
        ensures
            est.wf(),
            est.window_size == window_size,
            est.history_map() == Map::<Seq<char>, HistoryView>::empty(),
    {
        RateEstimator { window_size, entries: Vec::new() }
    }

    /// The position of `key`'s slot, if the estimator has one.
    fn find_entry(entries: &Vec<HistEntry>, key: &String) -> (r: Option<usize>)
        ensures
            match r {
                Some(i) => i < entries@.len() && entries@[i as int].key@ == key@,
                None => forall|j: int|
                    0 <= j < entries@.len() ==> (#[trigger] entries@[j]).key@ != key@,
            },
    {
        let n = entries.len();
        let mut i: usize = 0;
        while i < n
            invariant
                i <= n,
                n == entries@.len(),
                forall|j: int| 0 <= j < i ==> (#[trigger] entries@[j]).key@ != key@,
            decreases n - i,
        {
            if entries[i].key == *key {
                return Some(i);
            }
            i = i + 1;
        }
        None
    }

    /// Record one observation of `key` at `timestamp` and return the key's
    /// updated frequency estimate in millihertz.
    pub fn observe(&mut self, key: &String, timestamp: u64) -> (hz: u64)
        requires
            old(self).wf(),
        ensures
            final(self).wf(),
            final(self).window_size == old(self).window_size,
            final(self).history_map() == old(self).history_map().insert(
                key@,
                observed_history(
                    old(self).history_map(),
                    key@,
                    timestamp,
                    old(self).window_size as nat,
                ),
            ),
            hz == rate_millihz(
                observed_history(
                    old(self).history_map(),
                    key@,
                    timestamp,
                    old(self).window_size as nat,
                ).deltas,
            ),
            hz <= 1_000_000,
    {
        let ghost key_of = |e: HistEntry| e.key@;
        let ghost val_of = |e: HistEntry| e.hist@;
        match Self::find_entry(&self.entries, key) {
            Some(i) => {
                proof {
                    crate::assoc::lemma_assoc_index(self.entries@, key_of, val_of, i as int);
                }
                let mut entry = self.entries.remove(i);
                entry.hist.observe(timestamp, self.window_size);
                let hz = entry.hist.estimated_rate_millihz();
                self.entries.insert(i, entry);
                proof {
                    assert(self.entries@ =~= old(self).entries@.update(i as int, entry));
                    crate::assoc::lemma_assoc_update(
                        old(self).entries@,
                        key_of,
                        val_of,
                        i as int,
                        entry,
                    );
                }
                hz
            },
            None => {
                proof {
                    crate::assoc::lemma_assoc_dom(self.entries@, key_of, val_of, key@);
                }
                let mut hist = IntervalHistory::new(timestamp);
                hist.observe(timestamp, self.window_size);
                let hz = hist.estimated_rate_millihz();
                let entry = HistEntry { key: key.clone(), hist };
                self.entries.push(entry);
                proof {
                    crate::assoc::lemma_assoc_push(old(self).entries@, key_of, val_of, entry);
                    assert(crate::assoc::unique_keys(self.entries@, key_of)) by {
                        assert(forall|x: int|
                            0 <= x < old(self).entries@.len() ==> key_of(
                                #[trigger] self.entries@[x],
                            ) != key@);
                    }
                }
                hz
            },
        }
    }
}

/// Summing one more gap extends the sum of a prefix by that gap.
proof fn lemma_sum_take_succ(deltas: Seq<u64>, i: int)
    requires
        0 <= i < deltas.len(),
    ensures
        sum_of(deltas.take(i + 1)) == sum_of(deltas.take(i)) + deltas[i],
{
    assert(deltas.take(i + 1).drop_last() =~= deltas.take(i));
    assert(deltas.take(i + 1).last() == deltas[i]);
}

/// Observing timestamps in strictly increasing order grows the window by one
/// gap per observation after the first, up to the bound: after `n`
/// observations the window holds the smaller of `n - 1` and `window` gaps,
/// and the history remembers the last timestamp.
pub proof fn lemma_history_len(timestamps: Seq<u64>, window: nat)
    requires
        timestamps.len() >= 1,
        strictly_increasing(timestamps),
    ensures
        history_after(timestamps, window).last_seen == timestamps.last(),
        history_after(timestamps, window).deltas.len() == if timestamps.len() - 1 <= window {
            timestamps.len() - 1
        } else {
            window as int
        },
    decreases timestamps.len(),
{
    if timestamps.len() > 1 {
        let prefix = timestamps.drop_last();
        assert(strictly_increasing(prefix)) by {
            assert(forall|i: int, j: int|
                0 <= i < j < prefix.len() ==> prefix[i] == timestamps[i] && prefix[j]
                    == timestamps[j]);
        }
        lemma_history_len(prefix, window);
        assert(prefix.last() == timestamps[timestamps.len() - 2]);
        assert(timestamps[timestamps.len() - 2] < timestamps.last());
    }
}

/// Window bound: after observing more strictly increasing timestamps than the
/// window holds, the window holds exactly `window` gaps.
pub proof fn lemma_window_bound(timestamps: Seq<u64>, window: nat)
    requires
        strictly_increasing(timestamps),
        timestamps.len() > window,
    ensures
        history_after(timestamps, window).deltas.len() == window,
{
    lemma_history_len(timestamps, window);
}

} // verus!
