//! The coalescing engine: one debounce cycle folds the raw notifications
//! drained from the queue into a deduplicated set of modified paths and a
//! deduplicated set of deleted paths, and decides whether the watch loop must
//! terminate.

use vstd::prelude::*;

use crate::event::Event;
use crate::filter::{FilterModel, IgnoreFilter};

verus! {

/// A path from a raw notification, together with what the filesystem said it
/// currently denotes. The flags are sampled by whoever delivers the
/// notification; a path that no longer exists carries `false` for both.
pub struct PathInfo {
    pub path: String,
    pub is_file: bool,
    pub is_dir: bool,
}

/// A raw notification as delivered by the low-level event source.
///
/// `Stop` is the sentinel injected to terminate the watch loop; `Error`
/// reports a transient per-notification problem and cuts the current cycle
/// short. The notice and permission-change variants are informational and
/// contribute nothing.
pub enum RawEvent {
    Create(PathInfo),
    Write(PathInfo),
    Remove(PathInfo),
    Rename(PathInfo, PathInfo),
    Error(String),
    Stop,
    NoticeWrite(PathInfo),
    NoticeRemove(PathInfo),
    Chmod(PathInfo),
}

/// The mathematical outcome of one cycle: the two path sets and whether the
/// stop sentinel was seen.
#[verifier::ext_equal]
pub ghost struct CycleModel {
    pub modified: Set<Seq<char>>,
    pub deleted: Set<Seq<char>>,
    pub stop: bool,
}

impl CycleModel {
    pub open spec fn empty() -> CycleModel {
        CycleModel { modified: Set::empty(), deleted: Set::empty(), stop: false }
    }
}

/// How one raw notification updates the accumulated sets.
///
/// A create or write adds the path to `modified` when it is not excluded and
/// denotes a regular file. A remove adds the path to `deleted` when it is not
/// excluded, with no existence check. A rename acts as an atomic delete of
/// the source plus modify of the target, and is dropped entirely when the
/// target is excluded or not a regular file. No cross-set deduplication is
/// performed: a path can end the cycle in both sets, and `Deleted` is
/// authoritative for such a path.
pub open spec fn apply_event(f: FilterModel, ev: RawEvent, acc: CycleModel) -> CycleModel {
    match ev {
        RawEvent::Create(p) | RawEvent::Write(p) => {
            if !f.excludes(p.path@, p.is_dir) && p.is_file {
                CycleModel { modified: acc.modified.insert(p.path@), ..acc }
            } else {
                acc
            }
        },
        RawEvent::Remove(p) => {
            if !f.excludes(p.path@, p.is_dir) {
                CycleModel { deleted: acc.deleted.insert(p.path@), ..acc }
            } else {
                acc
            }
        },
        RawEvent::Rename(from, to) => {
            if !f.excludes(to.path@, to.is_dir) && to.is_file {
                let with_del = if !f.excludes(from.path@, from.is_dir) {
                    CycleModel { deleted: acc.deleted.insert(from.path@), ..acc }
                } else {
                    acc
                };
                CycleModel { modified: with_del.modified.insert(to.path@), ..with_del }
            } else {
                acc
            }
        },
        _ => acc,
    }
}

/// Folds the notifications of one cycle, front to back, into `acc`. An error
/// notification cuts the cycle short with whatever was accumulated; the stop
/// sentinel does the same and marks the cycle as the last one.
pub open spec fn drain(f: FilterModel, evs: Seq<RawEvent>, acc: CycleModel) -> CycleModel
    decreases evs.len(),
{
    if evs.len() == 0 {
        acc
    } else {
        match evs[0] {
            RawEvent::Error(_) => acc,
            RawEvent::Stop => CycleModel { stop: true, ..acc },
            _ => drain(f, evs.drop_first(), apply_event(f, evs[0], acc)),
        }
    }
}

/// The outcome of one whole cycle, started from empty sets.
pub open spec fn cycle(f: FilterModel, evs: Seq<RawEvent>) -> CycleModel {
    drain(f, evs, CycleModel::empty())
}

/// The set of paths a vector of path strings stands for.
pub open spec fn path_set(v: Seq<String>) -> Set<Seq<char>> {
    Set::new(|p: Seq<char>| exists|i: int| 0 <= i < v.len() && v[i]@ == p)
}

/// No two entries of the vector denote the same path.
pub open spec fn distinct_paths(v: Seq<String>) -> bool {
    forall|i: int, j: int| 0 <= i < j < v.len() ==> v[i]@ != v[j]@
}

/// What one cycle accumulated: the two path sets as deduplicated vectors,
/// and whether the stop sentinel ended the cycle.
pub struct CycleResult {
    pub modified: Vec<String>,
    pub deleted: Vec<String>,
    pub stop: bool,
}

impl CycleResult {
    /// Both vectors are free of duplicate paths.
    pub open spec fn wf(self) -> bool {
        distinct_paths(self.modified@) && distinct_paths(self.deleted@)
    }

    /// The mathematical outcome this result stands for.
    pub open spec fn model(self) -> CycleModel {
        CycleModel {
            modified: path_set(self.modified@),
            deleted: path_set(self.deleted@),
            stop: self.stop,
        }
    }
}

/// Whether the vector already holds `p`'s path.
fn holds_path(v: &Vec<String>, p: &String) -> (r: bool)
    ensures
        r == path_set(v@).contains(p@),
{
    let n = v.len();
    let mut i: usize = 0;
    while i < n
        invariant
            n == v.len(),
            0 <= i <= n,
            forall|j: int| 0 <= j < i ==> v@[j]@ != p@,
        decreases n - i,
    {
        if v[i] == *p {
            return true;
        }
        i = i + 1;
    }
    false
}

/// Adds `p` to the vector unless an entry for the same path is already there.
fn add_path(v: &mut Vec<String>, p: &String)
    requires
        distinct_paths(old(v)@),
    ensures
        distinct_paths(final(v)@),
        path_set(final(v)@) == path_set(old(v)@).insert(p@),
{
    if !holds_path(v, p) {
        v.push(p.clone());
        proof {
            let prev = old(v)@;
            let last = v@.len() - 1;
            assert(v@[last]@ == p@);
            assert forall|i: int, j: int| 0 <= i < j < v@.len() implies v@[i]@ != v@[j]@ by {
                if j < last {
                    assert(v@[i] == prev[i] && v@[j] == prev[j]);
                } else {
                    assert(v@[i] == prev[i]);
                    assert(!path_set(prev).contains(p@));
                    assert(prev[i]@ != p@);
                }
            }
            assert forall|x: Seq<char>|
                path_set(v@).contains(x) == path_set(prev).insert(p@).contains(x) by {
                if path_set(v@).contains(x) {
                    let i = choose|i: int| 0 <= i < v@.len() && v@[i]@ == x;
                    if i < last {
                        assert(prev[i]@ == x);
                        assert(path_set(prev).contains(x));
                    } else {
                        assert(x == p@);
                    }
                }
                if path_set(prev).contains(x) {
                    let i = choose|i: int| 0 <= i < prev.len() && prev[i]@ == x;
                    assert(v@[i]@ == x);
                    assert(path_set(v@).contains(x));
                }
                if x == p@ {
                    assert(v@[last]@ == x);
                    assert(path_set(v@).contains(x));
                }
            }
            assert(path_set(v@) =~= path_set(prev).insert(p@));
        }
    } else {
        assert(path_set(v@) =~= path_set(old(v)@).insert(p@));
    }
}

/// Classifies and folds one cycle's worth of raw notifications into the two
/// accumulation sets, exactly as `cycle` states: filtered against the ignore
/// filter, deduplicated per set, cut short at the first error notification,
/// and marked as final when the stop sentinel is seen.
pub fn process_cycle(filter: &IgnoreFilter, events: &Vec<RawEvent>) -> (r: CycleResult)
    ensures
        r.wf(),
        r.model() == cycle(filter@, events@),
{
    let ghost full: Seq<RawEvent> = events@;
    let mut modified: Vec<String> = Vec::new();
    let mut deleted: Vec<String> = Vec::new();
    let mut stop = false;
    let mut done = false;
    let n = events.len();
    let mut i: usize = 0;
    proof {
        assert(full.skip(0) =~= full);
        assert(path_set(modified@) =~= Set::<Seq<char>>::empty());
        assert(path_set(deleted@) =~= Set::<Seq<char>>::empty());
        assert((CycleModel {
            modified: path_set(modified@),
            deleted: path_set(deleted@),
            stop: false,
        }) =~= CycleModel::empty());
    }
    while i < n && !done
        invariant
            n == events.len(),
            events@ == full,
            0 <= i <= n,
            distinct_paths(modified@),
            distinct_paths(deleted@),
            !done ==> !stop,
            !done ==> drain(
                filter@,
                full.skip(i as int),
                CycleModel {
                    modified: path_set(modified@),
                    deleted: path_set(deleted@),
                    stop: false,
                },
            ) == cycle(filter@, full),
            done ==> (CycleModel {
                modified: path_set(modified@),
                deleted: path_set(deleted@),
                stop,
            }) == cycle(filter@, full),
        decreases n - i + (if done { 0int } else { 1int }),
    {
        let ghost rest = full.skip(i as int);
        let ghost acc = CycleModel {
            modified: path_set(modified@),
            deleted: path_set(deleted@),
            stop: false,
        };
        assert(rest.drop_first() =~= full.skip(i as int + 1));
        match &events[i] {
            RawEvent::Create(p) | RawEvent::Write(p) => {
                if !filter.is_excluded(&p.path, p.is_dir) && p.is_file {
                    add_path(&mut modified, &p.path);
                }
            },
            RawEvent::Remove(p) => {
                if !filter.is_excluded(&p.path, p.is_dir) {
                    add_path(&mut deleted, &p.path);
                }
            },
            RawEvent::Rename(from, to) => {
                if !filter.is_excluded(&to.path, to.is_dir) && to.is_file {
                    if !filter.is_excluded(&from.path, from.is_dir) {
                        add_path(&mut deleted, &from.path);
                    }
                    add_path(&mut modified, &to.path);
                }
            },
            RawEvent::Error(_) => {
                done = true;
            },
            RawEvent::Stop => {
                stop = true;
                done = true;
            },
            RawEvent::NoticeWrite(_) => {},
            RawEvent::NoticeRemove(_) => {},
            RawEvent::Chmod(_) => {},
        }
        if !done {
            i = i + 1;
        }
    }
    CycleResult { modified, deleted, stop }
}

/// The batched events one cycle's accumulated sets give rise to: the deleted
/// set first, then the modified set, each only when non-empty.
pub open spec fn emissions_model(c: CycleResult) -> Seq<Event> {
    if c.deleted@.len() > 0 && c.modified@.len() > 0 {
        seq![Event::Deleted(c.deleted), Event::Modified(c.modified)]
    } else if c.deleted@.len() > 0 {
        seq![Event::Deleted(c.deleted)]
    } else if c.modified@.len() > 0 {
        seq![Event::Modified(c.modified)]
    } else {
        Seq::empty()
    }
}

/// Turns one cycle's accumulated sets into the events to hand to the
/// callback, in emission order: deletions always before modifications, and
/// no event for an empty set.
pub fn emissions(c: CycleResult) -> (r: Vec<Event>)
    ensures
        r@ == emissions_model(c),
        forall|k: int|
            0 <= k < r@.len() ==> (#[trigger] r@[k]).spec_paths().len() > 0,
        forall|k: int|
            0 <= k < r@.len() ==> (r@[k] is Deleted || r@[k] is Modified),
        forall|k: int, l: int|
            0 <= k < l < r@.len() ==> !(r@[k] is Modified && r@[l] is Deleted),
{
    let CycleResult { modified, deleted, stop: _ } = c;
    let mut out: Vec<Event> = Vec::new();
    if deleted.len() > 0 {
        out.push(Event::Deleted(deleted));
    }
    if modified.len() > 0 {
        out.push(Event::Modified(modified));
    }
    assert(out@ =~= emissions_model(c));
    out
}

} // verus!
