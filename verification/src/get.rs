//! Read-through lookup: cache, then disk, then cloud, filling the faster tiers on the way back.

use crate::model::Tiers;
use crate::tier::{Pending, Reply, Request, Tier};
use vstd::prelude::*;

verus! {

/// Where a lookup stands.
#[derive(Debug)]
pub enum GetPhase<V> {
    /// Waiting for the given tier to answer the read.
    Reading(Tier),
    /// The record was found in a slower tier and is being copied into the given faster one.
    Promoting(Tier, V),
    /// The lookup has its result.
    Finished(Option<V>),
}

/// A lookup as the contracts see it.
pub struct GetView<V> {
    /// The path that is looked up.
    pub path: Seq<char>,
    /// Whether a cloud tier is configured.
    pub cloud: bool,
    /// Where the lookup stands.
    pub phase: GetPhase<V>,
}

impl<V> GetView<V> {
    /// A lookup that has not asked anything yet: it starts at the cache.
    pub open spec fn begin(path: Seq<char>, cloud: bool) -> GetView<V> {
        GetView { path, cloud, phase: GetPhase::Reading(Tier::Cache) }
    }

    /// The states a lookup can be in: it turns to the cloud, and promotes to disk what it
    /// found there, only where a cloud tier is configured; it never promotes into the cloud.
    pub open spec fn wf(self) -> bool {
        match self.phase {
            GetPhase::Reading(tier) => tier == Tier::Cloud ==> self.cloud,
            GetPhase::Promoting(tier, _) => tier == Tier::Cache || (tier == Tier::Disk
                && self.cloud),
            GetPhase::Finished(_) => true,
        }
    }

    /// What the caller has to carry out next.
    pub open spec fn pending(self) -> Pending {
        match self.phase {
            GetPhase::Reading(tier) => Pending::Read(tier),
            GetPhase::Promoting(tier, _) => Pending::Write(tier),
            GetPhase::Finished(_) => Pending::Finished,
        }
    }

    /// The record to be written, while one is being promoted.
    pub open spec fn payload(self) -> Option<V> {
        match self.phase {
            GetPhase::Promoting(_, value) => Some(value),
            _ => None,
        }
    }

    /// The pending request in full.
    pub open spec fn request(self) -> Request<V> {
        self.pending().request(self.path, self.payload())
    }

    /// Whether the lookup has its result.
    pub open spec fn finished(self) -> bool {
        self.phase is Finished
    }

    /// The record that the lookup found; `None` while it is under way and when it found none.
    pub open spec fn result(self) -> Option<V> {
        match self.phase {
            GetPhase::Finished(found) => found,
            _ => None,
        }
    }

    /// The lookup after the pending request was answered with `reply`.
    ///
    /// A read that hits ends the search: a hit in the cache is the result at once, a hit on
    /// disk is first copied into the cache, a hit in the cloud first to disk and then into the
    /// cache. A read that misses, for whatever reason, moves on to the next slower tier that
    /// is configured, and ends the lookup empty-handed after the last. How a promoting write
    /// went does not matter: the lookup moves on as if it had succeeded.
    pub open spec fn after(self, reply: Reply<V>) -> GetView<V> {
        let phase = match self.phase {
            GetPhase::Reading(tier) => match reply.hit() {
                Some(value) => match tier {
                    Tier::Cache => GetPhase::Finished(Some(value)),
                    Tier::Disk => GetPhase::Promoting(Tier::Cache, value),
                    Tier::Cloud => GetPhase::Promoting(Tier::Disk, value),
                },
                None => match tier {
                    Tier::Cache => GetPhase::Reading(Tier::Disk),
                    Tier::Disk => if self.cloud {
                        GetPhase::Reading(Tier::Cloud)
                    } else {
                        GetPhase::Finished(None)
                    },
                    Tier::Cloud => GetPhase::Finished(None),
                },
            },
            GetPhase::Promoting(tier, value) => match tier {
                Tier::Disk => GetPhase::Promoting(Tier::Cache, value),
                _ => GetPhase::Finished(Some(value)),
            },
            GetPhase::Finished(found) => GetPhase::Finished(found),
        };
        GetView { phase, ..self }
    }

    /// An upper bound on the number of requests still to come.
    pub open spec fn remaining(self) -> nat {
        match self.phase {
            GetPhase::Reading(Tier::Cache) => 5,
            GetPhase::Reading(Tier::Disk) => 4,
            GetPhase::Reading(Tier::Cloud) => 3,
            GetPhase::Promoting(Tier::Disk, _) => 2,
            GetPhase::Promoting(_, _) => 1,
            GetPhase::Finished(_) => 0,
        }
    }

    /// The lookup carried to its end against tiers that never fail, together with what the
    /// tiers hold afterwards.
    pub open spec fn run(self, tiers: Tiers<V>) -> (GetView<V>, Tiers<V>)
        decreases self.remaining(),
    {
        if self.finished() {
            (self, tiers)
        } else {
            self.after(tiers.reply(self.request())).run(tiers.after(self.request()))
        }
    }
}

/// A read-through lookup of one path.
///
/// The caller carries out `pending` against its backends, using `path` and `payload`, hands
/// the answer to `step`, and goes on until `pending` is `Finished`; `result` is then the
/// record that was found.
#[derive(Debug)]
pub struct Get<V> {
    path: String,
    cloud: bool,
    phase: GetPhase<V>,
}

impl<V> View for Get<V> {
    type V = GetView<V>;

    closed spec fn view(&self) -> GetView<V> {
        GetView { path: self.path@, cloud: self.cloud, phase: self.phase }
    }
}

impl<V> Get<V> {
    #[verifier::type_invariant]
    spec fn inv(self) -> bool {
        self@.wf()
    }

    /// Starts a lookup of `path`; `cloud` says whether a cloud tier is configured.
    pub fn new(path: String, cloud: bool) -> (op: Get<V>)
        ensures
            op@ == GetView::<V>::begin(path@, cloud),
    {
        Get { path, cloud, phase: GetPhase::Reading(Tier::Cache) }
    }

    /// What the caller has to carry out next. The cloud is only ever named where a cloud tier
    /// is configured.
    pub fn pending(&self) -> (pending: Pending)
        ensures
            pending == self@.pending(),
            self@.wf(),
    {
        proof {
            use_type_invariant(self);
        }
        match &self.phase {
            GetPhase::Reading(tier) => Pending::Read(*tier),
            GetPhase::Promoting(tier, _) => Pending::Write(*tier),
            GetPhase::Finished(_) => Pending::Finished,
        }
    }

    /// The path that the pending request is about.
    pub fn path(&self) -> (path: &str)
        ensures
            path@ == self@.path,
    {
        self.path.as_str()
    }

    /// The record that a pending write is to store.
    pub fn payload(&self) -> (payload: Option<&V>)
        ensures
            match payload {
                Some(value) => self@.payload() == Some(*value),
                None => self@.payload() is None,
            },
    {
        match &self.phase {
            GetPhase::Promoting(_, value) => Some(value),
            _ => None,
        }
    }

    /// Whether the lookup has its result.
    pub fn is_finished(&self) -> (finished: bool)
        ensures
            finished == self@.finished(),
    {
        match &self.phase {
            GetPhase::Finished(_) => true,
            _ => false,
        }
    }

    /// Takes the answer to the pending request and moves on.
    pub fn step(self, reply: Reply<V>) -> (next: Get<V>)
        ensures
            next@ == self@.after(reply),
            next@.wf(),
    {
        proof {
            use_type_invariant(&self);
        }
        let Get { path, cloud, phase } = self;
        let phase = match phase {
            GetPhase::Reading(tier) => match reply.into_hit() {
                Some(value) => match tier {
                    Tier::Cache => GetPhase::Finished(Some(value)),
                    Tier::Disk => GetPhase::Promoting(Tier::Cache, value),
                    Tier::Cloud => GetPhase::Promoting(Tier::Disk, value),
                },
                None => match tier {
                    Tier::Cache => GetPhase::Reading(Tier::Disk),
                    Tier::Disk => if cloud {
                        GetPhase::Reading(Tier::Cloud)
                    } else {
                        GetPhase::Finished(None)
                    },
                    Tier::Cloud => GetPhase::Finished(None),
                },
            },
            GetPhase::Promoting(tier, value) => match tier {
                Tier::Disk => GetPhase::Promoting(Tier::Cache, value),
                _ => GetPhase::Finished(Some(value)),
            },
            GetPhase::Finished(found) => GetPhase::Finished(found),
        };
        Get { path, cloud, phase }
    }

    /// The record that the lookup found; `None` while it is under way and when it found none.
    pub fn result(self) -> (found: Option<V>)
        ensures
            found == self@.result(),
    {
        match self.phase {
            GetPhase::Finished(found) => found,
            _ => None,
        }
    }
}

/// The record that a lookup of `path` is to find: what the fastest tier that holds the path
/// has under it.
pub open spec fn fastest_hit<V>(tiers: Tiers<V>, path: Seq<char>) -> Option<V> {
    if tiers.lookup(Tier::Cache, path) is Some {
        tiers.lookup(Tier::Cache, path)
    } else if tiers.lookup(Tier::Disk, path) is Some {
        tiers.lookup(Tier::Disk, path)
    } else {
        tiers.lookup(Tier::Cloud, path)
    }
}

/// What the tiers are to hold after a lookup of `path`: a record found on disk is now in the
/// cache too, a record found in the cloud is now on disk and in the cache too, and nothing
/// else has changed.
pub open spec fn promoted<V>(tiers: Tiers<V>, path: Seq<char>) -> Tiers<V> {
    if tiers.lookup(Tier::Cache, path) is Some {
        tiers
    } else if tiers.lookup(Tier::Disk, path) is Some {
        Tiers { cache: tiers.cache.insert(path, tiers.disk[path]), ..tiers }
    } else if tiers.lookup(Tier::Cloud, path) is Some {
        let value = tiers.cloud->0[path];
        Tiers {
            cache: tiers.cache.insert(path, value),
            disk: tiers.disk.insert(path, value),
            ..tiers
        }
    } else {
        tiers
    }
}

/// Every answer brings a lookup that is under way closer to its end, and takes it from one
/// state a lookup can be in to another.
pub proof fn law_get_step_makes_progress<V>(op: GetView<V>, reply: Reply<V>)
    requires
        op.wf(),
    ensures
        op.after(reply).wf(),
        !op.finished() ==> op.after(reply).remaining() < op.remaining(),
        op.finished() ==> op.after(reply) == op,
        op.after(reply).path == op.path,
        op.after(reply).cloud == op.cloud,
{
}

/// A lookup asks the cloud, and asks anything of the cloud, only where a cloud tier is
/// configured, and it only ever writes into tiers faster than the cloud.
pub proof fn law_get_respects_configuration<V>(op: GetView<V>)
    requires
        op.wf(),
    ensures
        op.pending().tier() == Some(Tier::Cloud) ==> op.cloud,
        op.pending() != Pending::Write(Tier::Cloud),
        !(op.pending() is Delete),
        op.pending() is Write <==> op.payload() is Some,
{
}

/// Why a read produced nothing makes no difference: a record that is absent, one that does
/// not decode and a tier that failed all send the lookup on in the same way.
pub proof fn law_get_masks_faults<V>(op: GetView<V>, one: Reply<V>, other: Reply<V>)
    requires
        one.hit() is None,
        other.hit() is None,
    ensures
        op.after(one) == op.after(other),
{
}

/// How a promoting write went makes no difference to the lookup.
pub proof fn law_get_ignores_promotion_outcome<V>(op: GetView<V>, one: Reply<V>, other: Reply<V>)
    requires
        op.pending() is Write,
    ensures
        op.after(one) == op.after(other),
        op.after(one).finished() ==> op.after(one).result() == op.payload(),
{
}

/// Read-through on tiers that never fail: a lookup ends, finds what the fastest tier holding
/// the path has under it, and leaves that record in every tier faster than the one it was
/// found in.
pub proof fn law_get_reads_through<V>(tiers: Tiers<V>, path: Seq<char>)
    ensures
        ({
            let (end, after) = GetView::<V>::begin(path, tiers.has_cloud()).run(tiers);
            &&& end.finished()
            &&& end.result() == fastest_hit(tiers, path)
            &&& after == promoted(tiers, path)
        }),
{
    reveal_with_fuel(GetView::run, 6);
    let op = GetView::<V>::begin(path, tiers.has_cloud());
    let (end, after) = op.run(tiers);
    if tiers.lookup(Tier::Cache, path) is Some {
    } else if tiers.lookup(Tier::Disk, path) is Some {
    } else if tiers.lookup(Tier::Cloud, path) is Some {
        let value = tiers.cloud->0[path];
        let mid = tiers.after(Request::Write { tier: Tier::Disk, path, value });
        assert(mid.after(Request::Write { tier: Tier::Cache, path, value }) == promoted(
            tiers,
            path,
        ));
    } else {
    }
}

/// Promotion: a record that is on disk but not in the cache is found by a lookup, and is in
/// the cache afterwards, with the disk as it was.
pub proof fn law_get_promotes_from_disk<V>(tiers: Tiers<V>, path: Seq<char>, record: V)
    requires
        tiers.lookup(Tier::Disk, path) == Some(record),
        tiers.lookup(Tier::Cache, path) is None,
    ensures
        ({
            let (end, after) = GetView::<V>::begin(path, tiers.has_cloud()).run(tiers);
            &&& end.result() == Some(record)
            &&& after.lookup(Tier::Cache, path) == Some(record)
            &&& after.disk == tiers.disk
            &&& after.cloud == tiers.cloud
        }),
{
    law_get_reads_through(tiers, path);
}

/// A second lookup finds what the first one found, and changes nothing any more.
pub proof fn law_get_is_repeatable<V>(tiers: Tiers<V>, path: Seq<char>)
    ensures
        ({
            let (first, after) = GetView::<V>::begin(path, tiers.has_cloud()).run(tiers);
            let (second, settled) = GetView::<V>::begin(path, after.has_cloud()).run(after);
            &&& second.result() == first.result()
            &&& settled == after
        }),
{
    law_get_reads_through(tiers, path);
    let after = promoted(tiers, path);
    law_get_reads_through(after, path);
}

} // verus!
