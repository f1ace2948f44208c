//! A model of tiers that never fail, against which the operations can be run on paper.
//!
//! The operations themselves promise nothing about the backends: they only react to replies.
//! What an operation achieves end to end is stated here, for backends that store what they
//! are told to store and answer truthfully.

use crate::tier::{Fault, Reply, Request, Tier};
use vstd::prelude::*;

verus! {

/// What one tier holds: a record under each path it knows.
pub type Contents<V> = Map<Seq<char>, V>;

/// The contents of the three tiers; `cloud` is `None` where no cloud tier is configured.
pub struct Tiers<V> {
    pub cache: Contents<V>,
    pub disk: Contents<V>,
    pub cloud: Option<Contents<V>>,
}

impl<V> Tiers<V> {
    /// Whether a cloud tier is configured.
    pub open spec fn has_cloud(self) -> bool {
        self.cloud is Some
    }

    /// What `tier` holds; `None` for the cloud where none is configured.
    pub open spec fn contents(self, tier: Tier) -> Option<Contents<V>> {
        match tier {
            Tier::Cache => Some(self.cache),
            Tier::Disk => Some(self.disk),
            Tier::Cloud => self.cloud,
        }
    }

    /// These tiers with the contents of `tier` replaced.
    pub open spec fn with(self, tier: Tier, contents: Contents<V>) -> Tiers<V> {
        match tier {
            Tier::Cache => Tiers { cache: contents, ..self },
            Tier::Disk => Tiers { disk: contents, ..self },
            Tier::Cloud => Tiers { cloud: Some(contents), ..self },
        }
    }

    /// The record that `tier` holds under `path`, if any.
    pub open spec fn lookup(self, tier: Tier, path: Seq<char>) -> Option<V> {
        match self.contents(tier) {
            Some(contents) => if contents.contains_key(path) {
                Some(contents[path])
            } else {
                None
            },
            None => None,
        }
    }

    /// How the tiers answer a request. A tier that is not configured fails every request; a
    /// configured one finds what it holds, and completes every write and every delete, also
    /// the delete of a path it does not hold.
    pub open spec fn reply(self, request: Request<V>) -> Reply<V> {
        match request {
            Request::Read { tier, path } => match self.lookup(tier, path) {
                Some(value) => Reply::Value(value),
                None => Reply::Fault(Fault::NotFound),
            },
            Request::Write { tier, path, value } => if self.contents(tier) is Some {
                Reply::Done
            } else {
                Reply::Fault(Fault::IoError)
            },
            Request::Delete { tier, path } => if self.contents(tier) is Some {
                Reply::Done
            } else {
                Reply::Fault(Fault::IoError)
            },
            Request::Nothing => Reply::Done,
        }
    }

    /// What the tiers hold once they have served a request.
    pub open spec fn after(self, request: Request<V>) -> Tiers<V> {
        match request {
            Request::Read { tier, path } => self,
            Request::Write { tier, path, value } => match self.contents(tier) {
                Some(contents) => self.with(tier, contents.insert(path, value)),
                None => self,
            },
            Request::Delete { tier, path } => match self.contents(tier) {
                Some(contents) => self.with(tier, contents.remove(path)),
                None => self,
            },
            Request::Nothing => self,
        }
    }

    /// The paths that a listing of `tier` under `prefix` yields.
    pub open spec fn listed(self, tier: Tier, prefix: Seq<char>) -> Set<Seq<char>> {
        match self.contents(tier) {
            Some(contents) => contents.dom().filter(|path: Seq<char>| prefix.is_prefix_of(path)),
            None => Set::empty(),
        }
    }
}

} // verus!
