//! Removal from every tier: cache, then disk, then cloud.

use crate::get::GetView;
use crate::model::Tiers;
use crate::tier::{Pending, Request, Tier};
use vstd::prelude::*;

verus! {

/// Where a removal stands.
#[derive(Clone, Copy, Debug, PartialEq, Eq, Structural)]
pub enum RemovePhase {
    /// Waiting for the given tier to answer the delete.
    Deleting(Tier),
    /// The removal has its result: whether every configured tier completed its delete.
    Finished(bool),
}

/// A removal as the contracts see it.
pub struct RemoveView {
    /// The path that is deleted.
    pub path: Seq<char>,
    /// Whether a cloud tier is configured.
    pub cloud: bool,
    /// Where the removal stands.
    pub phase: RemovePhase,
}

impl RemoveView {
    /// A removal that has not asked anything yet: it starts at the cache.
    pub open spec fn begin(path: Seq<char>, cloud: bool) -> RemoveView {
        RemoveView { path, cloud, phase: RemovePhase::Deleting(Tier::Cache) }
    }

    /// The states a removal can be in: it turns to the cloud only where one is configured.
    pub open spec fn wf(self) -> bool {
        match self.phase {
            RemovePhase::Deleting(tier) => tier == Tier::Cloud ==> self.cloud,
            RemovePhase::Finished(_) => true,
        }
    }

    /// What the caller has to carry out next.
    pub open spec fn pending(self) -> Pending {
        match self.phase {
            RemovePhase::Deleting(tier) => Pending::Delete(tier),
            RemovePhase::Finished(_) => Pending::Finished,
        }
    }

    /// The pending request in full.
    pub open spec fn request<V>(self) -> Request<V> {
        self.pending().request(self.path, None)
    }

    /// Whether the removal has its result.
    pub open spec fn finished(self) -> bool {
        self.phase is Finished
    }

    /// Whether the removal has succeeded; `false` while it is under way and when it failed.
    pub open spec fn result(self) -> bool {
        match self.phase {
            RemovePhase::Finished(removed) => removed,
            _ => false,
        }
    }

    /// The removal after the pending request was answered; `completed` says whether the
    /// delete went through.
    ///
    /// A completed delete is followed by the delete in the next slower tier that is
    /// configured, and ends the removal in success after the last. A delete that was not
    /// completed ends the removal in failure at once; what was deleted before stays deleted.
    pub open spec fn after(self, completed: bool) -> RemoveView {
        let phase = match self.phase {
            RemovePhase::Deleting(tier) => if !completed {
                RemovePhase::Finished(false)
            } else {
                match tier {
                    Tier::Cache => RemovePhase::Deleting(Tier::Disk),
                    Tier::Disk => if self.cloud {
                        RemovePhase::Deleting(Tier::Cloud)
                    } else {
                        RemovePhase::Finished(true)
                    },
                    Tier::Cloud => RemovePhase::Finished(true),
                }
            },
            RemovePhase::Finished(removed) => RemovePhase::Finished(removed),
        };
        RemoveView { phase, ..self }
    }

    /// An upper bound on the number of requests still to come.
    pub open spec fn remaining(self) -> nat {
        match self.phase {
            RemovePhase::Deleting(Tier::Cache) => 3,
            RemovePhase::Deleting(Tier::Disk) => 2,
            RemovePhase::Deleting(Tier::Cloud) => 1,
            RemovePhase::Finished(_) => 0,
        }
    }

    /// The removal carried to its end against tiers that never fail, together with what the
    /// tiers hold afterwards.
    pub open spec fn run<V>(self, tiers: Tiers<V>) -> (RemoveView, Tiers<V>)
        decreases self.remaining(),
    {
        if self.finished() {
            (self, tiers)
        } else {
            self.after(tiers.reply(self.request::<V>()).completed()).run(
                tiers.after(self.request::<V>()),
            )
        }
    }
}

/// The removal of one path from every tier.
///
/// The caller carries out `pending` against its backends, using `path`, hands the answer to
/// `step`, and goes on until `pending` is `Finished`; `result` then says whether the path is
/// gone from every configured tier.
#[derive(Debug)]
pub struct Remove {
    path: String,
    cloud: bool,
    phase: RemovePhase,
}

impl View for Remove {
    type V = RemoveView;

    closed spec fn view(&self) -> RemoveView {
        RemoveView { path: self.path@, cloud: self.cloud, phase: self.phase }
    }
}

impl Remove {
    #[verifier::type_invariant]
    spec fn inv(self) -> bool {
        self@.wf()
    }

    /// Starts a removal of `path`; `cloud` says whether a cloud tier is configured.
    pub fn new(path: String, cloud: bool) -> (op: Remove)
        ensures
            op@ == RemoveView::begin(path@, cloud),
    {
        Remove { path, cloud, phase: RemovePhase::Deleting(Tier::Cache) }
    }

    /// What the caller has to carry out next. The cloud is only ever named where a cloud tier
    /// is configured.
    pub fn pending(&self) -> (pending: Pending)
        ensures
            pending == self@.pending(),
            self@.wf(),
    {
        proof {
            use_type_invariant(self);
        }
        match self.phase {
            RemovePhase::Deleting(tier) => Pending::Delete(tier),
            RemovePhase::Finished(_) => Pending::Finished,
        }
    }

    /// The path that the pending request is about.
    pub fn path(&self) -> (path: &str)
        ensures
            path@ == self@.path,
    {
        self.path.as_str()
    }

    /// Whether the removal has its result.
    pub fn is_finished(&self) -> (finished: bool)
        ensures
            finished == self@.finished(),
    {
        match self.phase {
            RemovePhase::Finished(_) => true,
            _ => false,
        }
    }

    /// Takes the answer to the pending request and moves on; `completed` says whether the
    /// delete went through.
    pub fn step(self, completed: bool) -> (next: Remove)
        ensures
            next@ == self@.after(completed),
            next@.wf(),
    {
        proof {
            use_type_invariant(&self);
        }
        let Remove { path, cloud, phase } = self;
        let phase = match phase {
            RemovePhase::Deleting(tier) => if !completed {
                RemovePhase::Finished(false)
            } else {
                match tier {
                    Tier::Cache => RemovePhase::Deleting(Tier::Disk),
                    Tier::Disk => if cloud {
                        RemovePhase::Deleting(Tier::Cloud)
                    } else {
                        RemovePhase::Finished(true)
                    },
                    Tier::Cloud => RemovePhase::Finished(true),
                }
            },
            RemovePhase::Finished(removed) => RemovePhase::Finished(removed),
        };
        Remove { path, cloud, phase }
    }

    /// Whether the removal has succeeded; `false` while it is under way and when it failed.
    pub fn result(&self) -> (removed: bool)
        ensures
            removed == self@.result(),
    {
        match self.phase {
            RemovePhase::Finished(removed) => removed,
            _ => false,
        }
    }
}

/// Every answer brings a removal that is under way closer to its end, and takes it from one
/// state a removal can be in to another.
pub proof fn law_remove_step_makes_progress(op: RemoveView, completed: bool)
    requires
        op.wf(),
    ensures
        op.after(completed).wf(),
        !op.finished() ==> op.after(completed).remaining() < op.remaining(),
        op.finished() ==> op.after(completed) == op,
        op.after(completed).path == op.path,
        op.after(completed).cloud == op.cloud,
{
}

/// A removal asks for nothing but deletes, and of the cloud only where one is configured.
pub proof fn law_remove_respects_configuration(op: RemoveView)
    requires
        op.wf(),
    ensures
        op.pending() is Delete || op.pending() is Finished,
        op.pending().tier() == Some(Tier::Cloud) ==> op.cloud,
{
}

/// A removal succeeds exactly if the cache and the disk complete their deletes and, where a
/// cloud tier is configured, the cloud completes its delete too. Without a cloud tier the
/// third answer is never asked for and changes nothing.
pub proof fn law_remove_needs_every_tier(
    path: Seq<char>,
    cloud: bool,
    cache_done: bool,
    disk_done: bool,
    cloud_done: bool,
)
    ensures
        ({
            let op = RemoveView::begin(path, cloud);
            let end = op.after(cache_done).after(disk_done).after(cloud_done);
            &&& end.finished()
            &&& end.result() == (cache_done && disk_done && (cloud ==> cloud_done))
            &&& !cache_done ==> op.after(cache_done).finished()
            &&& !cloud || !disk_done ==> op.after(cache_done).after(disk_done).finished()
        }),
{
}

/// On tiers that never fail, a removal ends in success, the path is gone from every tier, and
/// every other path is where it was.
pub proof fn law_remove_clears_every_tier<V>(tiers: Tiers<V>, path: Seq<char>)
    ensures
        ({
            let (end, after) = RemoveView::begin(path, tiers.has_cloud()).run(tiers);
            &&& end.finished()
            &&& end.result()
            &&& after.cache == tiers.cache.remove(path)
            &&& after.disk == tiers.disk.remove(path)
            &&& after.cloud == match tiers.cloud {
                Some(contents) => Some(contents.remove(path)),
                None => None,
            }
        }),
{
    reveal_with_fuel(RemoveView::run, 4);
}

/// Idempotent delete: on tiers that never fail, removing a path twice in a row succeeds both
/// times, the second removal changes nothing, and a lookup after the first finds nothing.
pub proof fn law_remove_is_idempotent<V>(tiers: Tiers<V>, path: Seq<char>)
    ensures
        ({
            let cloud = tiers.has_cloud();
            let (first, once) = RemoveView::begin(path, cloud).run(tiers);
            let (second, twice) = RemoveView::begin(path, cloud).run(once);
            let (found, _) = GetView::<V>::begin(path, cloud).run(once);
            &&& first.result()
            &&& second.result()
            &&& twice == once
            &&& found.finished()
            &&& found.result() is None
        }),
{
    law_remove_clears_every_tier(tiers, path);
    let (_, once) = RemoveView::begin(path, tiers.has_cloud()).run(tiers);
    law_remove_clears_every_tier(once, path);
    assert(once.cache.remove(path) =~= once.cache);
    assert(once.disk.remove(path) =~= once.disk);
    if once.cloud is Some {
        assert(once.cloud->0.remove(path) =~= once.cloud->0);
    }
    crate::get::law_get_reads_through(once, path);
}

} // verus!
