//! Increments of one counter that overlap.
//!
//! Several callers increment the same counter, and the backend carries out their reads and
//! writes one at a time, in any order. Nothing is promised but a range: every number handed
//! out lies between 1 and the number of callers, and so does the counter once a caller has
//! finished. Numbers can be handed out twice.

use crate::codec::{law_decode_inverts_encode, spec_encode};
use crate::model::Tiers;
use crate::sequence::{counter, NextPhase, NextView};
use crate::tier::Tier;
use vstd::prelude::*;
use vstd::set_lib::{lemma_int_range, lemma_len_subset, set_int_range};

verus! {

/// `k` callers that have each started an increment of the counter under `path`.
pub open spec fn callers(path: Seq<char>, k: nat) -> Seq<NextView> {
    Seq::new(k, |i: int| NextView::begin(path))
}

/// `k` callers that have each read the counter under `path`, and none has written yet.
pub open spec fn callers_after_reading(tiers: Tiers<Seq<u8>>, path: Seq<char>, k: nat) -> Seq<
    NextView,
> {
    Seq::new(
        k,
        |i: int| NextView::begin(path).after(tiers.reply(NextView::begin(path).request())),
    )
}

/// One turn: the caller `who` has its pending request carried out against tiers that never
/// fail. A caller that has finished, and a number that names no caller, change nothing.
pub open spec fn turn(ops: Seq<NextView>, tiers: Tiers<Seq<u8>>, who: int) -> (
    Seq<NextView>,
    Tiers<Seq<u8>>,
) {
    if 0 <= who < ops.len() {
        (
            ops.update(who, ops[who].after(tiers.reply(ops[who].request()))),
            tiers.after(ops[who].request()),
        )
    } else {
        (ops, tiers)
    }
}

/// The callers and the tiers after the turns of `schedule`, taken in order.
pub open spec fn interleaved(ops: Seq<NextView>, tiers: Tiers<Seq<u8>>, schedule: Seq<int>) -> (
    Seq<NextView>,
    Tiers<Seq<u8>>,
)
    decreases schedule.len(),
{
    if schedule.len() == 0 {
        (ops, tiers)
    } else {
        let (before, held) = interleaved(ops, tiers, schedule.drop_last());
        turn(before, held, schedule.last())
    }
}

/// The callers that have finished.
pub open spec fn finished_callers(ops: Seq<NextView>) -> Set<int> {
    Set::new(|i: int| 0 <= i < ops.len() && ops[i].finished())
}

/// What holds of one caller while `done` callers have finished.
spec fn caller_in_range(op: NextView, path: Seq<char>, done: nat) -> bool {
    &&& op.path == path
    &&& match op.phase {
        NextPhase::Reading => true,
        NextPhase::Writing(value) => 1 <= value <= done + 1,
        NextPhase::Finished(value) => 1 <= value <= done,
    }
}

/// What holds after every turn: the counter and every number in flight are bounded by the
/// number of callers that have finished.
spec fn in_range(ops: Seq<NextView>, tiers: Tiers<Seq<u8>>, path: Seq<char>, k: nat) -> bool {
    let done = finished_callers(ops).len();
    &&& ops.len() == k
    &&& counter(tiers, path) <= done
    &&& done >= 1 ==> counter(tiers, path) >= 1
    &&& forall|i: int| 0 <= i < k ==> caller_in_range(#[trigger] ops[i], path, done)
}

proof fn lemma_finished_callers_bounded(ops: Seq<NextView>)
    ensures
        finished_callers(ops).finite(),
        finished_callers(ops).len() <= ops.len(),
        forall|i: int|
            0 <= i < ops.len() && !(#[trigger] ops[i]).finished() ==> finished_callers(ops).len()
                < ops.len(),
{
    let all = set_int_range(0, ops.len() as int);
    let done = finished_callers(ops);
    lemma_int_range(0, ops.len() as int);
    lemma_len_subset(done, all);
    assert forall|i: int| 0 <= i < ops.len() && !(#[trigger] ops[i]).finished() implies done.len()
        < ops.len() by {
        assert(all.contains(i));
        assert(done.subset_of(all.remove(i)));
        lemma_len_subset(done, all.remove(i));
    }
}

proof fn lemma_turn_stays_in_range(
    ops: Seq<NextView>,
    tiers: Tiers<Seq<u8>>,
    path: Seq<char>,
    k: nat,
    who: int,
)
    requires
        in_range(ops, tiers, path, k),
        k <= u32::MAX,
    ensures
        in_range(turn(ops, tiers, who).0, turn(ops, tiers, who).1, path, k),
{
    let (next, held) = turn(ops, tiers, who);
    let done = finished_callers(ops);
    lemma_finished_callers_bounded(ops);
    if 0 <= who < ops.len() {
        let op = ops[who];
        assert(caller_in_range(op, path, done.len()));
        match op.phase {
            NextPhase::Reading => {
                assert(done.len() < k);
                assert(finished_callers(next) =~= done);
                assert(held == tiers);
                assert forall|i: int| 0 <= i < k implies caller_in_range(
                    #[trigger] next[i],
                    path,
                    done.len(),
                ) by {
                    if i != who {
                        assert(caller_in_range(ops[i], path, done.len()));
                    }
                }
            },
            NextPhase::Writing(value) => {
                law_decode_inverts_encode(value);
                assert(finished_callers(next) =~= done.insert(who));
                assert(!done.contains(who));
                assert(finished_callers(next).len() == done.len() + 1);
                assert(held.lookup(Tier::Disk, path) == Some(spec_encode(value)));
                assert(counter(held, path) == value);
                assert forall|i: int| 0 <= i < k implies caller_in_range(
                    #[trigger] next[i],
                    path,
                    (done.len() + 1) as nat,
                ) by {
                    if i != who {
                        assert(caller_in_range(ops[i], path, done.len()));
                    }
                }
            },
            NextPhase::Finished(_) => {
                assert(next =~= ops);
                assert(held == tiers);
            },
        }
    }
}

proof fn lemma_interleaved_stays_in_range(
    ops: Seq<NextView>,
    tiers: Tiers<Seq<u8>>,
    path: Seq<char>,
    k: nat,
    schedule: Seq<int>,
)
    requires
        in_range(ops, tiers, path, k),
        k <= u32::MAX,
    ensures
        in_range(
            interleaved(ops, tiers, schedule).0,
            interleaved(ops, tiers, schedule).1,
            path,
            k,
        ),
    decreases schedule.len(),
{
    if schedule.len() > 0 {
        lemma_interleaved_stays_in_range(ops, tiers, path, k, schedule.drop_last());
        let (before, held) = interleaved(ops, tiers, schedule.drop_last());
        lemma_turn_stays_in_range(before, held, path, k, schedule.last());
    }
}

/// Overlapping increments stay in range: `k` callers increment a counter that was never
/// incremented, and their reads and writes are carried out one at a time in any order. Then
/// every caller that has finished was handed a number from 1 to `k`, the counter reads as at
/// most `k`, and as at least 1 once a caller has finished.
pub proof fn law_overlapping_increments_stay_in_range(
    tiers: Tiers<Seq<u8>>,
    path: Seq<char>,
    k: nat,
    schedule: Seq<int>,
)
    requires
        tiers.lookup(Tier::Disk, path) is None,
        k <= u32::MAX,
    ensures
        ({
            let (ops, after) = interleaved(callers(path, k), tiers, schedule);
            &&& ops.len() == k
            &&& forall|i: int|
                0 <= i < k && (#[trigger] ops[i]).finished() ==> 1 <= ops[i].result() <= k
            &&& counter(after, path) <= k
            &&& forall|i: int|
                0 <= i < k && (#[trigger] ops[i]).finished() ==> 1 <= counter(after, path)
        }),
{
    let start = callers(path, k);
    assert(finished_callers(start) =~= Set::<int>::empty());
    assert(in_range(start, tiers, path, k));
    lemma_interleaved_stays_in_range(start, tiers, path, k, schedule);
    let (ops, after) = interleaved(start, tiers, schedule);
    lemma_finished_callers_bounded(ops);
    let done = finished_callers(ops);
    assert forall|i: int| 0 <= i < k && (#[trigger] ops[i]).finished() implies 1
        <= ops[i].result() <= k && 1 <= counter(after, path) by {
        assert(caller_in_range(ops[i], path, done.len()));
        assert(done.contains(i));
    }
}

/// What holds after every turn once every caller has read `base`: each caller is about to
/// write the number after `base` or has been handed it, and the disk has taken that number
/// as soon as one caller has finished.
spec fn all_collide(
    ops: Seq<NextView>,
    held: Tiers<Seq<u8>>,
    tiers: Tiers<Seq<u8>>,
    path: Seq<char>,
    k: nat,
) -> bool {
    let higher = (counter(tiers, path) + 1) as u32;
    let written = Tiers { disk: tiers.disk.insert(path, spec_encode(higher)), ..tiers };
    &&& ops.len() == k
    &&& held == tiers || held == written
    &&& forall|i: int|
        0 <= i < k ==> {
            &&& (#[trigger] ops[i]).path == path
            &&& ops[i].phase == NextPhase::Writing(higher) || (ops[i].phase
                == NextPhase::Finished(higher) && held == written)
        }
}

proof fn lemma_interleaved_all_collide(
    ops: Seq<NextView>,
    held: Tiers<Seq<u8>>,
    tiers: Tiers<Seq<u8>>,
    path: Seq<char>,
    k: nat,
    schedule: Seq<int>,
)
    requires
        all_collide(ops, held, tiers, path, k),
        counter(tiers, path) < u32::MAX,
    ensures
        all_collide(
            interleaved(ops, held, schedule).0,
            interleaved(ops, held, schedule).1,
            tiers,
            path,
            k,
        ),
    decreases schedule.len(),
{
    if schedule.len() > 0 {
        lemma_interleaved_all_collide(ops, held, tiers, path, k, schedule.drop_last());
        let (before, between) = interleaved(ops, held, schedule.drop_last());
        let who = schedule.last();
        let (next, after) = turn(before, between, who);
        let higher = (counter(tiers, path) + 1) as u32;
        let written = Tiers { disk: tiers.disk.insert(path, spec_encode(higher)), ..tiers };
        if 0 <= who < k {
            assert(before[who].path == path);
            if before[who].phase == NextPhase::Writing(higher) {
                assert(tiers.disk.insert(path, spec_encode(higher)).insert(
                    path,
                    spec_encode(higher),
                ) =~= tiers.disk.insert(path, spec_encode(higher)));
                assert(after == written);
            } else {
                assert(next =~= before);
            }
            assert forall|i: int| 0 <= i < k implies {
                &&& (#[trigger] next[i]).path == path
                &&& next[i].phase == NextPhase::Writing(higher) || (next[i].phase
                    == NextPhase::Finished(higher) && after == written)
            } by {
                if i != who {
                    assert(before[i].path == path);
                }
            }
        }
    }
}

/// The race in full: where every one of `k` callers has read the counter before any of them
/// writes it back, and the writes are then carried out in any order, every caller that has
/// finished was handed the same number, the one after what the counter read as, and the disk
/// holds the layout of that number and is otherwise as it was. For a counter that was never
/// incremented, every caller is handed 1 and the disk ends with the bytes 0, 0, 0, 1.
pub proof fn law_reads_before_writes_all_collide(
    tiers: Tiers<Seq<u8>>,
    path: Seq<char>,
    k: nat,
    schedule: Seq<int>,
)
    requires
        counter(tiers, path) < u32::MAX,
    ensures
        ({
            let higher = (counter(tiers, path) + 1) as u32;
            let (ops, after) = interleaved(
                callers_after_reading(tiers, path, k),
                tiers,
                schedule,
            );
            &&& ops.len() == k
            &&& forall|i: int|
                0 <= i < k && (#[trigger] ops[i]).finished() ==> {
                    &&& ops[i].result() == higher
                    &&& after.disk == tiers.disk.insert(path, spec_encode(higher))
                    &&& counter(after, path) == higher
                }
            &&& after.cache == tiers.cache
            &&& after.cloud == tiers.cloud
            &&& tiers.lookup(Tier::Disk, path) is None ==> higher == 1 && spec_encode(higher)
                =~= seq![0u8, 0u8, 0u8, 1u8]
        }),
{
    let start = callers_after_reading(tiers, path, k);
    let higher = (counter(tiers, path) + 1) as u32;
    assert(all_collide(start, tiers, tiers, path, k));
    lemma_interleaved_all_collide(start, tiers, tiers, path, k, schedule);
    law_decode_inverts_encode(higher);
}

} // verus!
