//! The tiered store: a cache, a disk and an optional cloud tier behind one set of operations.

use crate::get::{Get, GetView};
use crate::insert::{Insert, InsertView};
use crate::path::{build_key, spec_record_path, spec_scan_prefix, spec_sequence_path, StorageData};
use crate::remove::{Remove, RemoveView};
use crate::scan::Scan;
use crate::sequence::{Current, CurrentView, Next, NextView};
use crate::tier::Tier;
use vstd::prelude::*;

verus! {

/// A store made of a cache tier, a disk tier and, optionally, a cloud tier.
///
/// The store holds the handles of its tiers and never looks inside them. Each of its
/// operations hands back a state machine that says what to ask of which tier; whoever owns the
/// store carries the requests out against the handles.
#[derive(Debug)]
pub struct Storage<C, D, R> {
    /// The handle of the cache tier.
    pub cache: C,
    /// The handle of the disk tier.
    pub disk: D,
    /// The handle of the cloud tier, where one is configured.
    pub cloud: Option<R>,
}

impl<C, D, R> Storage<C, D, R> {
    /// Puts a store together from the handles of its tiers.
    pub fn new(cache: C, disk: D, cloud: Option<R>) -> (store: Self)
        ensures
            store.cache == cache,
            store.disk == disk,
            store.cloud == cloud,
    {
        Storage { cache, disk, cloud }
    }

    /// Whether a cloud tier is configured.
    pub fn has_cloud(&self) -> (cloud: bool)
        ensures
            cloud == (self.cloud is Some),
    {
        self.cloud.is_some()
    }

    /// Starts a read-through lookup of the record of type `T` filed under `key`.
    pub fn get<T: StorageData>(&self, key: &str) -> (op: Get<T>)
        ensures
            op@ == GetView::<T>::begin(
                spec_record_path(T::spec_name(), key@),
                self.cloud is Some,
            ),
    {
        Get::new(build_key::<T>(key), self.cloud.is_some())
    }

    /// Starts a write-through insert of `value` as the record of type `T` filed under `key`.
    pub fn insert<T: StorageData>(&self, key: &str, value: T) -> (op: Insert<T>)
        ensures
            op@ == InsertView::begin(spec_record_path(T::spec_name(), key@), value),
    {
        Insert::new(build_key::<T>(key), value)
    }

    /// Starts the removal of the record of type `T` filed under `key` from every tier.
    pub fn remove<T: StorageData>(&self, key: &str) -> (op: Remove)
        ensures
            op@ == RemoveView::begin(
                spec_record_path(T::spec_name(), key@),
                self.cloud is Some,
            ),
    {
        Remove::new(build_key::<T>(key), self.cloud.is_some())
    }

    /// Says what to list in order to see every record of type `T`: the disk, under the
    /// type's prefix.
    pub fn scan<T: StorageData>(&self) -> (scan: Scan)
        ensures
            scan.tier == Tier::Disk,
            scan.prefix@ == spec_scan_prefix(T::spec_name()),
    {
        let record_type = T::name();
        Scan::new(record_type.as_str())
    }

    /// Starts an increment of the counter called `name`.
    pub fn next(&self, name: &str) -> (op: Next)
        ensures
            op@ == NextView::begin(spec_sequence_path(name@)),
    {
        Next::new(name)
    }

    /// Starts a look at the counter called `name`.
    pub fn current(&self, name: &str) -> (op: Current)
        ensures
            op@ == CurrentView::begin(spec_sequence_path(name@)),
    {
        Current::new(name)
    }
}

} // verus!
