//! Write-through insert: into the cache, then onto disk.

use crate::get::GetView;
use crate::model::Tiers;
use crate::tier::{Pending, Reply, Request, Tier};
use vstd::prelude::*;

verus! {

/// Where an insert stands.
#[derive(Debug)]
pub enum InsertPhase<V> {
    /// Waiting for the given tier to answer the write of the record.
    Writing(Tier, V),
    /// The insert has its result: the record if it is now in both tiers.
    Finished(Option<V>),
}

/// An insert as the contracts see it.
pub struct InsertView<V> {
    /// The path that is written.
    pub path: Seq<char>,
    /// Where the insert stands.
    pub phase: InsertPhase<V>,
}

impl<V> InsertView<V> {
    /// An insert that has not asked anything yet: it starts at the cache.
    pub open spec fn begin(path: Seq<char>, value: V) -> InsertView<V> {
        InsertView { path, phase: InsertPhase::Writing(Tier::Cache, value) }
    }

    /// The states an insert can be in: it writes into the cache and onto disk, never into
    /// the cloud.
    pub open spec fn wf(self) -> bool {
        match self.phase {
            InsertPhase::Writing(tier, _) => tier != Tier::Cloud,
            InsertPhase::Finished(_) => true,
        }
    }

    /// What the caller has to carry out next.
    pub open spec fn pending(self) -> Pending {
        match self.phase {
            InsertPhase::Writing(tier, _) => Pending::Write(tier),
            InsertPhase::Finished(_) => Pending::Finished,
        }
    }

    /// The record to be written, while a write is pending.
    pub open spec fn payload(self) -> Option<V> {
        match self.phase {
            InsertPhase::Writing(_, value) => Some(value),
            InsertPhase::Finished(_) => None,
        }
    }

    /// The pending request in full.
    pub open spec fn request(self) -> Request<V> {
        self.pending().request(self.path, self.payload())
    }

    /// Whether the insert has its result.
    pub open spec fn finished(self) -> bool {
        self.phase is Finished
    }

    /// The record, if the insert has succeeded; `None` while it is under way and when it failed.
    pub open spec fn result(self) -> Option<V> {
        match self.phase {
            InsertPhase::Finished(stored) => stored,
            _ => None,
        }
    }

    /// The insert after the pending request was answered with `reply`.
    ///
    /// A completed write into the cache is followed by the write onto disk, and a completed
    /// write onto disk ends the insert with the record. A write that was not completed ends
    /// the insert in failure at once; what was written before stays written.
    pub open spec fn after(self, reply: Reply<V>) -> InsertView<V> {
        let phase = match self.phase {
            InsertPhase::Writing(tier, value) => if !reply.completed() {
                InsertPhase::Finished(None)
            } else if tier == Tier::Cache {
                InsertPhase::Writing(Tier::Disk, value)
            } else {
                InsertPhase::Finished(Some(value))
            },
            InsertPhase::Finished(stored) => InsertPhase::Finished(stored),
        };
        InsertView { phase, ..self }
    }

    /// An upper bound on the number of requests still to come.
    pub open spec fn remaining(self) -> nat {
        match self.phase {
            InsertPhase::Writing(Tier::Cache, _) => 2,
            InsertPhase::Writing(_, _) => 1,
            InsertPhase::Finished(_) => 0,
        }
    }

    /// The insert carried to its end against tiers that never fail, together with what the
    /// tiers hold afterwards.
    pub open spec fn run(self, tiers: Tiers<V>) -> (InsertView<V>, Tiers<V>)
        decreases self.remaining(),
    {
        if self.finished() {
            (self, tiers)
        } else {
            self.after(tiers.reply(self.request())).run(tiers.after(self.request()))
        }
    }
}

/// A write-through insert of one record.
///
/// The caller carries out `pending` against its backends, using `path` and `payload`, hands
/// the answer to `step`, and goes on until `pending` is `Finished`; `result` is then the
/// record if it reached both tiers.
#[derive(Debug)]
pub struct Insert<V> {
    path: String,
    phase: InsertPhase<V>,
}

impl<V> View for Insert<V> {
    type V = InsertView<V>;

    closed spec fn view(&self) -> InsertView<V> {
        InsertView { path: self.path@, phase: self.phase }
    }
}

impl<V> Insert<V> {
    #[verifier::type_invariant]
    spec fn inv(self) -> bool {
        self@.wf()
    }

    /// Starts an insert of `value` under `path`.
    pub fn new(path: String, value: V) -> (op: Insert<V>)
        ensures
            op@ == InsertView::begin(path@, value),
    {
        Insert { path, phase: InsertPhase::Writing(Tier::Cache, value) }
    }

    /// What the caller has to carry out next: a write into the cache or onto disk, or nothing.
    pub fn pending(&self) -> (pending: Pending)
        ensures
            pending == self@.pending(),
            self@.wf(),
    {
        proof {
            use_type_invariant(self);
        }
        match &self.phase {
            InsertPhase::Writing(tier, _) => Pending::Write(*tier),
            InsertPhase::Finished(_) => Pending::Finished,
        }
    }

    /// The path that the pending request is about.
    pub fn path(&self) -> (path: &str)
        ensures
            path@ == self@.path,
    {
        self.path.as_str()
    }

    /// The record that a pending write is to store.
    pub fn payload(&self) -> (payload: Option<&V>)
        ensures
            match payload {
                Some(value) => self@.payload() == Some(*value),
                None => self@.payload() is None,
            },
    {
        match &self.phase {
            InsertPhase::Writing(_, value) => Some(value),
            InsertPhase::Finished(_) => None,
        }
    }

    /// Whether the insert has its result.
    pub fn is_finished(&self) -> (finished: bool)
        ensures
            finished == self@.finished(),
    {
        match &self.phase {
            InsertPhase::Finished(_) => true,
            _ => false,
        }
    }

    /// Takes the answer to the pending request and moves on.
    pub fn step(self, reply: Reply<V>) -> (next: Insert<V>)
        ensures
            next@ == self@.after(reply),
            next@.wf(),
    {
        proof {
            use_type_invariant(&self);
        }
        let Insert { path, phase } = self;
        let phase = match phase {
            InsertPhase::Writing(tier, value) => if !reply.is_completed() {
                InsertPhase::Finished(None)
            } else {
                match tier {
                    Tier::Cache => InsertPhase::Writing(Tier::Disk, value),
                    _ => InsertPhase::Finished(Some(value)),
                }
            },
            InsertPhase::Finished(stored) => InsertPhase::Finished(stored),
        };
        Insert { path, phase }
    }

    /// The record, if the insert has succeeded; `None` while it is under way and when it failed.
    pub fn result(self) -> (stored: Option<V>)
        ensures
            stored == self@.result(),
    {
        match self.phase {
            InsertPhase::Finished(stored) => stored,
            _ => None,
        }
    }
}

/// Every answer brings an insert that is under way closer to its end, and takes it from one
/// state an insert can be in to another.
pub proof fn law_insert_step_makes_progress<V>(op: InsertView<V>, reply: Reply<V>)
    requires
        op.wf(),
    ensures
        op.after(reply).wf(),
        !op.finished() ==> op.after(reply).remaining() < op.remaining(),
        op.finished() ==> op.after(reply) == op,
        op.after(reply).path == op.path,
{
}

/// An insert asks for nothing but writes of its record, and never of the cloud.
pub proof fn law_insert_only_writes_locally<V>(op: InsertView<V>)
    requires
        op.wf(),
    ensures
        op.pending() is Write || op.pending() is Finished,
        op.pending().tier() != Some(Tier::Cloud),
        op.pending() is Write <==> op.payload() is Some,
{
}

/// An insert succeeds exactly if the cache write and the disk write are both completed, and
/// then hands the record back. Where the cache write fails, the disk is not asked at all.
pub proof fn law_insert_needs_both_writes<V>(
    path: Seq<char>,
    value: V,
    cache_reply: Reply<V>,
    disk_reply: Reply<V>,
)
    ensures
        ({
            let op = InsertView::begin(path, value);
            let end = op.after(cache_reply).after(disk_reply);
            &&& op.pending() == Pending::Write(Tier::Cache)
            &&& op.payload() == Some(value)
            &&& !cache_reply.completed() ==> op.after(cache_reply).finished()
            &&& cache_reply.completed() ==> {
                &&& op.after(cache_reply).pending() == Pending::Write(Tier::Disk)
                &&& op.after(cache_reply).payload() == Some(value)
            }
            &&& end.finished()
            &&& end.result() == if cache_reply.completed() && disk_reply.completed() {
                Some(value)
            } else {
                None
            }
        }),
{
}

/// Write-through on tiers that never fail: an insert ends with the record handed back, the
/// cache and the disk both hold the record under the path, and nothing else has changed.
pub proof fn law_insert_writes_through<V>(tiers: Tiers<V>, path: Seq<char>, value: V)
    ensures
        ({
            let (end, after) = InsertView::begin(path, value).run(tiers);
            &&& end.finished()
            &&& end.result() == Some(value)
            &&& after.cache == tiers.cache.insert(path, value)
            &&& after.disk == tiers.disk.insert(path, value)
            &&& after.cloud == tiers.cloud
            &&& after.lookup(Tier::Cache, path) == Some(value)
            &&& after.lookup(Tier::Disk, path) == Some(value)
        }),
{
    reveal_with_fuel(InsertView::run, 3);
}

/// After an insert on tiers that never fail, a lookup of the same path finds the record that
/// was inserted, and leaves the tiers as the insert left them.
pub proof fn law_get_finds_what_insert_stored<V>(tiers: Tiers<V>, path: Seq<char>, value: V)
    ensures
        ({
            let (_, stored) = InsertView::begin(path, value).run(tiers);
            let (end, after) = GetView::<V>::begin(path, stored.has_cloud()).run(stored);
            &&& end.result() == Some(value)
            &&& after == stored
        }),
{
    law_insert_writes_through(tiers, path, value);
    let (_, stored) = InsertView::begin(path, value).run(tiers);
    crate::get::law_get_reads_through(stored, path);
}

} // verus!
