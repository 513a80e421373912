//! The engine's guarantees that span several notifications or several
//! functions, stated over the cycle model and proved once and for all.

use vstd::prelude::*;

use crate::engine::{
    apply_event, cycle, drain, distinct_paths, path_set, CycleModel, CycleResult, PathInfo,
    RawEvent,
};
use crate::filter::FilterModel;

verus! {

/// Whether `ev` is a write notification for path `p` that the fold reports:
/// not excluded under the flag it carries, and denoting a regular file.
pub open spec fn reported_write_to(f: FilterModel, ev: RawEvent, p: Seq<char>) -> bool {
    match ev {
        RawEvent::Write(q) => q.path@ == p && q.is_file && !f.excludes(p, q.is_dir),
        _ => false,
    }
}

proof fn lemma_drain_all_writes(f: FilterModel, evs: Seq<RawEvent>, p: Seq<char>, acc: CycleModel)
    requires
        forall|i: int| 0 <= i < evs.len() ==> reported_write_to(f, #[trigger] evs[i], p),
    ensures
        evs.len() > 0 ==> drain(f, evs, acc) == (CycleModel {
            modified: acc.modified.insert(p),
            ..acc
        }),
        evs.len() == 0 ==> drain(f, evs, acc) == acc,
    decreases evs.len(),
{
    if evs.len() > 0 {
        assert(reported_write_to(f, evs[0], p));
        let acc1 = apply_event(f, evs[0], acc);
        assert(acc1 == CycleModel { modified: acc.modified.insert(p), ..acc });
        assert(forall|i: int|
            0 <= i < evs.drop_first().len() ==> reported_write_to(
                f,
                #[trigger] evs.drop_first()[i],
                p,
            ));
        lemma_drain_all_writes(f, evs.drop_first(), p, acc1);
        if evs.drop_first().len() > 0 {
            assert(acc1.modified.insert(p) =~= acc.modified.insert(p));
        }
    }
}

/// Coalescing over the model: any non-empty burst of reportable writes to one
/// path within one window folds to exactly the singleton modified set for
/// that path, no deletions, and no stop.
pub proof fn lemma_write_burst_coalesces(f: FilterModel, evs: Seq<RawEvent>, p: Seq<char>)
    requires
        evs.len() > 0,
        forall|i: int| 0 <= i < evs.len() ==> reported_write_to(f, #[trigger] evs[i], p),
    ensures
        cycle(f, evs).modified == Set::<Seq<char>>::empty().insert(p),
        cycle(f, evs).deleted == Set::<Seq<char>>::empty(),
        !cycle(f, evs).stop,
{
    lemma_drain_all_writes(f, evs, p, CycleModel::empty());
}

/// A deduplicated vector standing for a singleton path set holds exactly one
/// entry, the path itself.
pub proof fn lemma_singleton_path_vec(v: Seq<String>, p: Seq<char>)
    requires
        distinct_paths(v),
        path_set(v) == Set::<Seq<char>>::empty().insert(p),
    ensures
        v.len() == 1,
        v[0]@ == p,
{
    assert(path_set(v).contains(p));
    let i = choose|i: int| 0 <= i < v.len() && v[i]@ == p;
    if v.len() > 1 {
        let j = if i == 0 { 1int } else { 0int };
        assert(path_set(v).contains(v[j]@));
        assert(v[j]@ == p);
        assert(false);
    }
    assert(v[0]@ == p);
}

/// A deduplicated vector standing for the empty path set is empty.
pub proof fn lemma_empty_path_vec(v: Seq<String>)
    requires
        path_set(v) == Set::<Seq<char>>::empty(),
    ensures
        v.len() == 0,
{
    if v.len() > 0 {
        assert(path_set(v).contains(v[0]@));
    }
}

/// Coalescing at the level of one cycle's result: a burst of N reportable
/// writes to the same path produces a modified vector holding that path
/// exactly once, and nothing else.
pub proof fn lemma_write_burst_yields_single_entry(
    f: FilterModel,
    evs: Seq<RawEvent>,
    p: Seq<char>,
    r: CycleResult,
)
    requires
        evs.len() > 0,
        forall|i: int| 0 <= i < evs.len() ==> reported_write_to(f, #[trigger] evs[i], p),
        r.wf(),
        r.model() == cycle(f, evs),
    ensures
        r.modified@.len() == 1,
        r.modified@[0]@ == p,
        r.deleted@.len() == 0,
        !r.stop,
{
    lemma_write_burst_coalesces(f, evs, p);
    lemma_singleton_path_vec(r.modified@, p);
    lemma_empty_path_vec(r.deleted@);
}

proof fn lemma_drain_preserves_absence(
    f: FilterModel,
    evs: Seq<RawEvent>,
    p: Seq<char>,
    acc: CycleModel,
)
    requires
        forall|d: bool| #[trigger] f.excludes(p, d),
        !acc.modified.contains(p),
        !acc.deleted.contains(p),
    ensures
        !drain(f, evs, acc).modified.contains(p),
        !drain(f, evs, acc).deleted.contains(p),
    decreases evs.len(),
{
    if evs.len() > 0 {
        match evs[0] {
            RawEvent::Error(_) => {},
            RawEvent::Stop => {},
            _ => {
                let acc1 = apply_event(f, evs[0], acc);
                assert(!acc1.modified.contains(p) && !acc1.deleted.contains(p)) by {
                    match evs[0] {
                        RawEvent::Create(q) | RawEvent::Write(q) => {
                            if q.path@ == p {
                                assert(f.excludes(p, q.is_dir));
                            }
                        },
                        RawEvent::Remove(q) => {
                            if q.path@ == p {
                                assert(f.excludes(p, q.is_dir));
                            }
                        },
                        RawEvent::Rename(from, to) => {
                            if from.path@ == p {
                                assert(f.excludes(p, from.is_dir));
                            }
                            if to.path@ == p {
                                assert(f.excludes(p, to.is_dir));
                            }
                        },
                        _ => {},
                    }
                }
                lemma_drain_preserves_absence(f, evs.drop_first(), p, acc1);
            },
        }
    }
}

/// Filter soundness: a path the filter excludes, whatever directory flag a
/// notification carries for it, never reaches either set.
pub proof fn lemma_excluded_never_reported(f: FilterModel, evs: Seq<RawEvent>, p: Seq<char>)
    requires
        forall|d: bool| #[trigger] f.excludes(p, d),
    ensures
        !cycle(f, evs).modified.contains(p),
        !cycle(f, evs).deleted.contains(p),
{
    lemma_drain_preserves_absence(f, evs, p, CycleModel::empty());
}

/// A rename whose target is not excluded and is a regular file reports the
/// target as modified and, when the source is not excluded either, the
/// source as deleted — all within the one cycle.
pub proof fn lemma_rename_reports_delete_then_modify(
    f: FilterModel,
    from: PathInfo,
    to: PathInfo,
)
    requires
        !f.excludes(to.path@, to.is_dir),
        to.is_file,
    ensures
        cycle(f, seq![RawEvent::Rename(from, to)]).modified == Set::<Seq<char>>::empty().insert(
            to.path@,
        ),
        !f.excludes(from.path@, from.is_dir) ==> cycle(
            f,
            seq![RawEvent::Rename(from, to)],
        ).deleted == Set::<Seq<char>>::empty().insert(from.path@),
        f.excludes(from.path@, from.is_dir) ==> cycle(
            f,
            seq![RawEvent::Rename(from, to)],
        ).deleted == Set::<Seq<char>>::empty(),
        !cycle(f, seq![RawEvent::Rename(from, to)]).stop,
{
    let evs: Seq<RawEvent> = seq![RawEvent::Rename(from, to)];
    assert(evs[0] == RawEvent::Rename(from, to));
    assert(evs.drop_first() =~= Seq::<RawEvent>::empty());
    let acc1 = apply_event(f, evs[0], CycleModel::empty());
    assert(drain(f, evs.drop_first(), acc1) == acc1);
    assert(drain(f, evs, CycleModel::empty()) == acc1);
}

/// A rename whose target is excluded or not a regular file changes nothing:
/// neither the source nor the target is reported.
pub proof fn lemma_rename_into_ignored_is_dropped(f: FilterModel, from: PathInfo, to: PathInfo)
    requires
        f.excludes(to.path@, to.is_dir) || !to.is_file,
    ensures
        apply_event(f, RawEvent::Rename(from, to), CycleModel::empty()) == CycleModel::empty(),
        cycle(f, seq![RawEvent::Rename(from, to)]).modified == Set::<Seq<char>>::empty(),
        cycle(f, seq![RawEvent::Rename(from, to)]).deleted == Set::<Seq<char>>::empty(),
        !cycle(f, seq![RawEvent::Rename(from, to)]).stop,
{
    let evs: Seq<RawEvent> = seq![RawEvent::Rename(from, to)];
    assert(evs[0] == RawEvent::Rename(from, to));
    assert(evs.drop_first() =~= Seq::<RawEvent>::empty());
    let acc1 = apply_event(f, evs[0], CycleModel::empty());
    assert(drain(f, evs.drop_first(), acc1) == acc1);
    assert(drain(f, evs, CycleModel::empty()) == acc1);
}

proof fn lemma_drain_reaches_stop(f: FilterModel, evs: Seq<RawEvent>, k: int, acc: CycleModel)
    requires
        0 <= k < evs.len(),
        evs[k] is Stop,
        forall|j: int| 0 <= j < k ==> !((#[trigger] evs[j]) is Stop) && !(evs[j] is Error),
    ensures
        drain(f, evs, acc).stop,
    decreases k,
{
    if k == 0 {
    } else {
        lemma_drain_reaches_stop(f, evs.drop_first(), k - 1, apply_event(f, evs[0], acc));
    }
}

/// The stop sentinel takes effect: when the drained window holds a sentinel
/// with no error notification before it, the cycle is marked as the last
/// one, so the loop terminates after emitting the cycle's sets.
pub proof fn lemma_stop_sentinel_terminates(f: FilterModel, evs: Seq<RawEvent>, k: int)
    requires
        0 <= k < evs.len(),
        evs[k] is Stop,
        forall|j: int| 0 <= j < k ==> !((#[trigger] evs[j]) is Stop) && !(evs[j] is Error),
    ensures
        cycle(f, evs).stop,
{
    lemma_drain_reaches_stop(f, evs, k, CycleModel::empty());
}

} // verus!
