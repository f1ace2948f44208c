//! Named counters kept on disk: `Next` hands out the following number, `Current` looks at the
//! last one handed out.
//!
//! Reading a counter and writing it back are two requests. Nothing keeps another caller from
//! getting in between, so increments that overlap can hand out the same number.
//!
//! A counter never goes down: one that has reached the largest value stays there, and every
//! further increment fails without writing.

use crate::codec::{encode, reading, spec_encode, spec_reading, spec_successor, successor};
use crate::model::Tiers;
use crate::path::{sequence_path, spec_sequence_path};
use crate::tier::{Pending, Reply, Request, Tier};
use vstd::prelude::*;

verus! {

/// Where an increment stands.
#[derive(Clone, Copy, Debug, PartialEq, Eq, Structural)]
pub enum NextPhase {
    /// Waiting for the disk to answer the read of the counter.
    Reading,
    /// Waiting for the disk to answer the write of the given new value.
    Writing(u32),
    /// The increment has its result.
    Finished(u32),
}

/// An increment as the contracts see it.
pub struct NextView {
    /// The counter's path.
    pub path: Seq<char>,
    /// Where the increment stands.
    pub phase: NextPhase,
}

impl NextView {
    /// An increment that has not asked anything yet.
    pub open spec fn begin(path: Seq<char>) -> NextView {
        NextView { path, phase: NextPhase::Reading }
    }

    /// What the caller has to carry out next.
    pub open spec fn pending(self) -> Pending {
        match self.phase {
            NextPhase::Reading => Pending::Read(Tier::Disk),
            NextPhase::Writing(_) => Pending::Write(Tier::Disk),
            NextPhase::Finished(_) => Pending::Finished,
        }
    }

    /// The bytes to be written, while the write is pending: the layout of the new value.
    pub open spec fn payload(self) -> Option<Seq<u8>> {
        match self.phase {
            NextPhase::Writing(value) => Some(spec_encode(value)),
            _ => None,
        }
    }

    /// The pending request in full.
    pub open spec fn request(self) -> Request<Seq<u8>> {
        self.pending().request(self.path, self.payload())
    }

    /// Whether the increment has its result.
    pub open spec fn finished(self) -> bool {
        self.phase is Finished
    }

    /// The number handed out; 0 while the increment is under way and when it failed.
    pub open spec fn result(self) -> u32 {
        match self.phase {
            NextPhase::Finished(value) => value,
            _ => 0,
        }
    }

    /// The increment after the pending request was answered with `reply`.
    ///
    /// The answer to the read fixes the new value: the successor of what the counter read as,
    /// where a counter that is absent, malformed or unreadable reads as 0. A counter that
    /// reads as the largest value has no successor: the increment ends at once with 0, and
    /// nothing is written. The answer to the write ends the increment: with the new value if
    /// the write was completed, with 0 if not.
    pub open spec fn after(self, reply: Reply<Seq<u8>>) -> NextView {
        let phase = match self.phase {
            NextPhase::Reading => match spec_successor(spec_reading(reply.hit())) {
                Some(value) => NextPhase::Writing(value),
                None => NextPhase::Finished(0),
            },
            NextPhase::Writing(value) => NextPhase::Finished(
                if reply.completed() {
                    value
                } else {
                    0
                },
            ),
            NextPhase::Finished(value) => NextPhase::Finished(value),
        };
        NextView { phase, ..self }
    }

    /// An upper bound on the number of requests still to come.
    pub open spec fn remaining(self) -> nat {
        match self.phase {
            NextPhase::Reading => 2,
            NextPhase::Writing(_) => 1,
            NextPhase::Finished(_) => 0,
        }
    }

    /// The increment carried to its end against tiers that never fail, together with what the
    /// tiers hold afterwards.
    pub open spec fn run(self, tiers: Tiers<Seq<u8>>) -> (NextView, Tiers<Seq<u8>>)
        decreases self.remaining(),
    {
        if self.finished() {
            (self, tiers)
        } else {
            self.after(tiers.reply(self.request())).run(tiers.after(self.request()))
        }
    }
}

/// The increment of one counter.
///
/// The caller carries out `pending` against the disk, using `path` and `payload`, hands the
/// answer to `step`, and goes on until `pending` is `Finished`; `result` is then the number
/// handed out, or 0 if the new value could not be written or the counter cannot go higher.
#[derive(Debug)]
pub struct Next {
    path: String,
    phase: NextPhase,
}

impl View for Next {
    type V = NextView;

    closed spec fn view(&self) -> NextView {
        NextView { path: self.path@, phase: self.phase }
    }
}

impl Next {
    /// Starts an increment of the counter called `name`.
    pub fn new(name: &str) -> (op: Next)
        ensures
            op@ == NextView::begin(spec_sequence_path(name@)),
    {
        Next { path: sequence_path(name), phase: NextPhase::Reading }
    }

    /// What the caller has to carry out next: a read or a write on disk, or nothing.
    pub fn pending(&self) -> (pending: Pending)
        ensures
            pending == self@.pending(),
    {
        match self.phase {
            NextPhase::Reading => Pending::Read(Tier::Disk),
            NextPhase::Writing(_) => Pending::Write(Tier::Disk),
            NextPhase::Finished(_) => Pending::Finished,
        }
    }

    /// The counter's path.
    pub fn path(&self) -> (path: &str)
        ensures
            path@ == self@.path,
    {
        self.path.as_str()
    }

    /// The bytes that a pending write is to store.
    pub fn payload(&self) -> (payload: Option<Vec<u8>>)
        ensures
            match payload {
                Some(bytes) => self@.payload() == Some(bytes@),
                None => self@.payload() is None,
            },
    {
        match self.phase {
            NextPhase::Writing(value) => Some(encode(value)),
            _ => None,
        }
    }

    /// Whether the increment has its result.
    pub fn is_finished(&self) -> (finished: bool)
        ensures
            finished == self@.finished(),
    {
        match self.phase {
            NextPhase::Finished(_) => true,
            _ => false,
        }
    }

    /// Takes the answer to the pending request and moves on.
    pub fn step(self, reply: Reply<Vec<u8>>) -> (next: Next)
        ensures
            next@ == self@.after(reply@),
    {
        let Next { path, phase } = self;
        let phase = match phase {
            NextPhase::Reading => {
                let base: u32 = match &reply {
                    Reply::Value(bytes) => reading(Some(bytes)),
                    _ => reading(None),
                };
                match successor(base) {
                    Some(value) => NextPhase::Writing(value),
                    None => NextPhase::Finished(0),
                }
            },
            NextPhase::Writing(value) => if reply.is_completed() {
                NextPhase::Finished(value)
            } else {
                NextPhase::Finished(0)
            },
            NextPhase::Finished(value) => NextPhase::Finished(value),
        };
        Next { path, phase }
    }

    /// The number handed out; 0 while the increment is under way and when it failed.
    pub fn result(&self) -> (value: u32)
        ensures
            value == self@.result(),
    {
        match self.phase {
            NextPhase::Finished(value) => value,
            _ => 0,
        }
    }
}

/// Where a look at a counter stands.
#[derive(Clone, Copy, Debug, PartialEq, Eq, Structural)]
pub enum CurrentPhase {
    /// Waiting for the disk to answer the read of the counter.
    Reading,
    /// The look has its result.
    Finished(u32),
}

/// A look at a counter as the contracts see it.
pub struct CurrentView {
    /// The counter's path.
    pub path: Seq<char>,
    /// Where the look stands.
    pub phase: CurrentPhase,
}

impl CurrentView {
    /// A look that has not asked anything yet.
    pub open spec fn begin(path: Seq<char>) -> CurrentView {
        CurrentView { path, phase: CurrentPhase::Reading }
    }

    /// What the caller has to carry out next.
    pub open spec fn pending(self) -> Pending {
        match self.phase {
            CurrentPhase::Reading => Pending::Read(Tier::Disk),
            CurrentPhase::Finished(_) => Pending::Finished,
        }
    }

    /// The pending request in full.
    pub open spec fn request(self) -> Request<Seq<u8>> {
        self.pending().request(self.path, None)
    }

    /// Whether the look has its result.
    pub open spec fn finished(self) -> bool {
        self.phase is Finished
    }

    /// The counter's value; 0 while the look is under way.
    pub open spec fn result(self) -> u32 {
        match self.phase {
            CurrentPhase::Finished(value) => value,
            CurrentPhase::Reading => 0,
        }
    }

    /// The look after the pending request was answered with `reply`: it ends with what the
    /// counter read as, where a counter that is absent, malformed or unreadable reads as 0.
    pub open spec fn after(self, reply: Reply<Seq<u8>>) -> CurrentView {
        let phase = match self.phase {
            CurrentPhase::Reading => CurrentPhase::Finished(spec_reading(reply.hit())),
            CurrentPhase::Finished(value) => CurrentPhase::Finished(value),
        };
        CurrentView { phase, ..self }
    }

    /// The look carried to its end against tiers that never fail.
    pub open spec fn run(self, tiers: Tiers<Seq<u8>>) -> CurrentView {
        if self.finished() {
            self
        } else {
            self.after(tiers.reply(self.request()))
        }
    }
}

/// A look at the value of one counter.
///
/// The caller carries out `pending` against the disk, using `path`, hands the answer to
/// `step`, and reads the value from `result`.
#[derive(Debug)]
pub struct Current {
    path: String,
    phase: CurrentPhase,
}

impl View for Current {
    type V = CurrentView;

    closed spec fn view(&self) -> CurrentView {
        CurrentView { path: self.path@, phase: self.phase }
    }
}

impl Current {
    /// Starts a look at the counter called `name`.
    pub fn new(name: &str) -> (op: Current)
        ensures
            op@ == CurrentView::begin(spec_sequence_path(name@)),
    {
        Current { path: sequence_path(name), phase: CurrentPhase::Reading }
    }

    /// What the caller has to carry out next: a read on disk, or nothing.
    pub fn pending(&self) -> (pending: Pending)
        ensures
            pending == self@.pending(),
    {
        match self.phase {
            CurrentPhase::Reading => Pending::Read(Tier::Disk),
            CurrentPhase::Finished(_) => Pending::Finished,
        }
    }

    /// The counter's path.
    pub fn path(&self) -> (path: &str)
        ensures
            path@ == self@.path,
    {
        self.path.as_str()
    }

    /// Whether the look has its result.
    pub fn is_finished(&self) -> (finished: bool)
        ensures
            finished == self@.finished(),
    {
        match self.phase {
            CurrentPhase::Finished(_) => true,
            _ => false,
        }
    }

    /// Takes the answer to the pending request and moves on.
    pub fn step(self, reply: Reply<Vec<u8>>) -> (next: Current)
        ensures
            next@ == self@.after(reply@),
    {
        let Current { path, phase } = self;
        let phase = match phase {
            CurrentPhase::Reading => {
                let value: u32 = match &reply {
                    Reply::Value(bytes) => reading(Some(bytes)),
                    _ => reading(None),
                };
                CurrentPhase::Finished(value)
            },
            CurrentPhase::Finished(value) => CurrentPhase::Finished(value),
        };
        Current { path, phase }
    }

    /// The counter's value; 0 while the look is under way.
    pub fn result(&self) -> (value: u32)
        ensures
            value == self@.result(),
    {
        match self.phase {
            CurrentPhase::Finished(value) => value,
            CurrentPhase::Reading => 0,
        }
    }
}

/// What the counter under `path` reads as in the given tiers: 0 unless the disk holds four
/// bytes under the path.
pub open spec fn counter(tiers: Tiers<Seq<u8>>, path: Seq<char>) -> u32 {
    spec_reading(tiers.lookup(Tier::Disk, path))
}

/// `n` increments of one counter carried out one after another against tiers that never fail:
/// the numbers handed out, in order, and what the tiers hold afterwards.
pub open spec fn increments(tiers: Tiers<Seq<u8>>, path: Seq<char>, n: nat) -> (
    Seq<u32>,
    Tiers<Seq<u8>>,
)
    decreases n,
{
    if n == 0 {
        (Seq::empty(), tiers)
    } else {
        let (handed, before) = increments(tiers, path, (n - 1) as nat);
        let (end, after) = NextView::begin(path).run(before);
        (handed.push(end.result()), after)
    }
}

/// Every answer brings an increment that is under way closer to its end, and the counter
/// operations ask nothing of any tier but the disk.
pub proof fn law_sequence_stays_on_disk(
    next: NextView,
    current: CurrentView,
    reply: Reply<Seq<u8>>,
)
    ensures
        !next.finished() ==> next.after(reply).remaining() < next.remaining(),
        next.finished() ==> next.after(reply) == next,
        next.after(reply).path == next.path,
        next.pending() is Finished || next.pending().tier() == Some(Tier::Disk),
        !(next.pending() is Delete),
        next.pending() is Write <==> next.payload() is Some,
        current.after(reply).finished(),
        current.finished() ==> current.after(reply) == current,
        current.pending() is Finished || current.pending() == Pending::Read(Tier::Disk),
{
}

/// An increment that read less than the largest value asks for the successor to be written,
/// and hands out the successor if the write is completed and 0 if it is not.
pub proof fn law_next_reports_failed_write(
    path: Seq<char>,
    read_reply: Reply<Seq<u8>>,
    write_reply: Reply<Seq<u8>>,
)
    requires
        spec_reading(read_reply.hit()) < u32::MAX,
    ensures
        ({
            let op = NextView::begin(path);
            let higher = (spec_reading(read_reply.hit()) + 1) as u32;
            let end = op.after(read_reply).after(write_reply);
            &&& op.pending() == Pending::Read(Tier::Disk)
            &&& op.after(read_reply).pending() == Pending::Write(Tier::Disk)
            &&& op.after(read_reply).payload() == Some(spec_encode(higher))
            &&& end.finished()
            &&& end.result() == if write_reply.completed() {
                higher
            } else {
                0
            }
        }),
{
}

/// An increment that read the largest value ends at once: it hands out 0 and asks for no
/// write, so that the counter stays where it is.
pub proof fn law_next_writes_nothing_at_the_top(path: Seq<char>, read_reply: Reply<Seq<u8>>)
    requires
        spec_reading(read_reply.hit()) == u32::MAX,
    ensures
        ({
            let end = NextView::begin(path).after(read_reply);
            &&& end.finished()
            &&& end.pending() == Pending::Finished
            &&& end.payload() is None
            &&& end.result() == 0
        }),
{
}

/// Whatever the answers, an increment never asks for less to be written than it read, and
/// never hands out less than it read unless it hands out 0.
pub proof fn law_next_never_writes_less(
    path: Seq<char>,
    read_reply: Reply<Seq<u8>>,
    write_reply: Reply<Seq<u8>>,
)
    ensures
        ({
            let asked = NextView::begin(path).after(read_reply);
            let end = asked.after(write_reply);
            &&& asked.payload() matches Some(bytes) ==> spec_reading(Some(bytes))
                > spec_reading(read_reply.hit())
            &&& end.result() == 0 || end.result() > spec_reading(read_reply.hit())
        }),
{
    let base = spec_reading(read_reply.hit());
    if base < u32::MAX {
        crate::codec::law_decode_inverts_encode((base + 1) as u32);
    }
}

/// A look at a counter, on tiers that never fail, yields what the counter reads as; a counter
/// that was never incremented reads as 0.
pub proof fn law_current_reads_counter(tiers: Tiers<Seq<u8>>, path: Seq<char>)
    ensures
        CurrentView::begin(path).run(tiers).finished(),
        CurrentView::begin(path).run(tiers).result() == counter(tiers, path),
        tiers.lookup(Tier::Disk, path) is None ==> CurrentView::begin(path).run(tiers).result()
            == 0,
{
}

/// An increment of a counter below the largest value, on tiers that never fail, hands out
/// the number after what the counter read as, and the counter reads as that number
/// afterwards. It writes the layout of that number under the counter's path on disk and
/// changes nothing else.
pub proof fn law_next_advances_counter(tiers: Tiers<Seq<u8>>, path: Seq<char>)
    requires
        counter(tiers, path) < u32::MAX,
    ensures
        ({
            let (end, after) = NextView::begin(path).run(tiers);
            &&& end.finished()
            &&& end.result() == counter(tiers, path) + 1
            &&& counter(after, path) == end.result()
            &&& CurrentView::begin(path).run(after).result() == end.result()
            &&& after.disk == tiers.disk.insert(path, spec_encode(end.result()))
            &&& after.cache == tiers.cache
            &&& after.cloud == tiers.cloud
        }),
{
    reveal_with_fuel(NextView::run, 3);
    crate::codec::law_decode_inverts_encode((counter(tiers, path) + 1) as u32);
}

/// An increment of a counter at the largest value, on tiers that never fail, hands out 0 and
/// leaves every tier as it was: a look afterwards still yields the largest value.
pub proof fn law_next_stops_at_the_top(tiers: Tiers<Seq<u8>>, path: Seq<char>)
    requires
        counter(tiers, path) == u32::MAX,
    ensures
        ({
            let (end, after) = NextView::begin(path).run(tiers);
            &&& end.finished()
            &&& end.result() == 0
            &&& after == tiers
            &&& CurrentView::begin(path).run(after).result() == u32::MAX
        }),
{
    reveal_with_fuel(NextView::run, 3);
}

/// A counter never goes down: after an increment, on tiers that never fail, it reads as at
/// least what it read as before, whatever that was.
pub proof fn law_next_never_lowers_counter(tiers: Tiers<Seq<u8>>, path: Seq<char>)
    ensures
        counter(NextView::begin(path).run(tiers).1, path) >= counter(tiers, path),
        CurrentView::begin(path).run(NextView::begin(path).run(tiers).1).result()
            >= CurrentView::begin(path).run(tiers).result(),
{
    if counter(tiers, path) < u32::MAX {
        law_next_advances_counter(tiers, path);
    } else {
        law_next_stops_at_the_top(tiers, path);
    }
}

/// A counter never goes down over any number of increments one after another.
pub proof fn law_increments_never_lower_counter(
    tiers: Tiers<Seq<u8>>,
    path: Seq<char>,
    n: nat,
)
    ensures
        counter(increments(tiers, path, n).1, path) >= counter(tiers, path),
    decreases n,
{
    if n > 0 {
        law_increments_never_lower_counter(tiers, path, (n - 1) as nat);
        law_next_never_lowers_counter(increments(tiers, path, (n - 1) as nat).1, path);
    }
}

/// Sequential increments count up: `n` increments of a counter that reads as `base` hand out
/// `base + 1`, `base + 2`, ..., `base + n` in this order, as long as the largest value is not
/// passed, and the counter reads as `base + n` afterwards.
pub proof fn law_increments_count_up(tiers: Tiers<Seq<u8>>, path: Seq<char>, n: nat)
    requires
        counter(tiers, path) + n <= u32::MAX,
    ensures
        ({
            let (handed, after) = increments(tiers, path, n);
            &&& handed.len() == n
            &&& forall|i: int| 0 <= i < n ==> #[trigger] handed[i] == counter(tiers, path) + i + 1
            &&& counter(after, path) == counter(tiers, path) + n
            &&& CurrentView::begin(path).run(after).result() == counter(tiers, path) + n
        }),
    decreases n,
{
    if n > 0 {
        law_increments_count_up(tiers, path, (n - 1) as nat);
        let (_, before) = increments(tiers, path, (n - 1) as nat);
        law_next_advances_counter(before, path);
    }
}

/// Sequence monotonicity: a counter that was never incremented reads as 0, and after `n`
/// increments one after another, which handed out exactly 1, 2, ..., `n`, it reads as `n`.
pub proof fn law_sequence_counts_from_one(tiers: Tiers<Seq<u8>>, path: Seq<char>, n: nat)
    requires
        tiers.lookup(Tier::Disk, path) is None,
        n <= u32::MAX,
    ensures
        CurrentView::begin(path).run(tiers).result() == 0,
        ({
            let (handed, after) = increments(tiers, path, n);
            &&& handed =~= Seq::new(n, |i: int| (i + 1) as u32)
            &&& CurrentView::begin(path).run(after).result() == n
        }),
{
    law_increments_count_up(tiers, path, n);
}

/// The race between two increments: where both read the counter before either writes it
/// back, both hand out the same number, and the counter has advanced by one only.
pub proof fn law_overlapping_increments_collide(tiers: Tiers<Seq<u8>>, path: Seq<char>)
    requires
        counter(tiers, path) < u32::MAX,
    ensures
        ({
            let one = NextView::begin(path).after(tiers.reply(NextView::begin(path).request()));
            let other = NextView::begin(path).after(
                tiers.reply(NextView::begin(path).request()),
            );
            let between = tiers.after(one.request());
            let one_end = one.after(tiers.reply(one.request()));
            let after = between.after(other.request());
            let other_end = other.after(between.reply(other.request()));
            &&& one_end.finished() && other_end.finished()
            &&& one_end.result() == other_end.result()
            &&& one_end.result() == counter(tiers, path) + 1
            &&& counter(after, path) == counter(tiers, path) + 1
        }),
{
    crate::codec::law_decode_inverts_encode((counter(tiers, path) + 1) as u32);
}

} // verus!
