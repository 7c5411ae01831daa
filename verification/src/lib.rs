//! Core of a live topic monitor: a topic-state store fed by a stream of keyed
//! observations, a per-topic sliding-window rate estimator, and a snapshot-diff
//! engine that turns point-in-time copies of the store into incremental
//! update/removal deltas for independent consumers.

pub mod assoc;
pub mod clock;
pub mod consumer;
pub mod diff;
pub mod escape;
pub mod page;
pub mod rate;
pub mod record;
pub mod snapshot;
pub mod store;
