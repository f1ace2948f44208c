//! Coordination logic of a tiered key-value store.
//!
//! A logical store is backed by a volatile cache, a local persistent disk and an optional
//! remote cloud tier. This crate decides what has to be asked of which tier and in which
//! order, and what the answers add up to; it performs no input or output itself.
//!
//! Every operation is a small state machine. The caller carries out the pending request
//! against its backend, hands the reply to `step`, and repeats until the operation is
//! finished. A caller that blocks and one that suspends drive the same machines and therefore
//! see the same results.
//!
//! - [`path`]: where records and counters live inside a tier's flat key space.
//! - [`codec`]: how a counter is laid out in bytes.
//! - [`tier`]: tiers, pending requests and replies.
//! - [`get`], [`insert`], [`remove`], [`scan`]: the operations on records.
//! - [`sequence`]: the operations on counters.
//! - [`race`]: what holds of increments that overlap.
//! - [`storage`]: the store that starts them.
//! - [`model`]: tiers that never fail, against which the end-to-end laws are stated.
//! - [`cloud`]: settings of a remote object store.

pub mod cloud;
pub mod codec;
pub mod get;
pub mod insert;
pub mod model;
pub mod path;
pub mod race;
pub mod remove;
pub mod scan;
pub mod sequence;
pub mod storage;
pub mod tier;

pub use cloud::CloudConfig;
pub use get::Get;
pub use insert::Insert;
pub use path::StorageData;
pub use remove::Remove;
pub use scan::Scan;
pub use sequence::{Current, Next};
pub use storage::Storage;
pub use tier::{Fault, Pending, Reply, Tier};
