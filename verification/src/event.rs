//! The batched events that one debounce cycle can emit.

use vstd::prelude::*;

verus! {

/// One semantic event handed to the embedding application.
///
/// `Modified` and `Deleted` carry a deduplicated set of absolute paths,
/// represented as a vector without repeated entries; they are only ever
/// emitted non-empty. `RootChanged` reports that the watched root itself was
/// replaced and the watch is stale. `Error` reports a fatal watcher failure.
pub enum Event {
    Modified(Vec<String>),
    Deleted(Vec<String>),
    RootChanged(String),
    Error,
}

impl Event {
    /// The path set carried by a `Modified` or `Deleted` event; empty for the
    /// variants that carry none.
    pub open spec fn spec_paths(self) -> Seq<String> {
        match self {
            Event::Modified(v) => v@,
            Event::Deleted(v) => v@,
            Event::RootChanged(_) => Seq::empty(),
            Event::Error => Seq::empty(),
        }
    }

    /// A stable lowercase tag naming the variant.
    pub fn kind(&self) -> (r: &'static str)
        ensures
            self is Modified ==> r@ == "modified"@,
            self is Deleted ==> r@ == "deleted"@,
            self is RootChanged ==> r@ == "rootChanged"@,
            self is Error ==> r@ == "error"@,
    {
        match self {
            Event::Modified(_) => "modified",
            Event::Deleted(_) => "deleted",
            Event::RootChanged(_) => "rootChanged",
            Event::Error => "error",
        }
    }

    /// The contained path set. Only the `Modified` and `Deleted` variants
    /// carry paths; calling this on any other variant is a contract
    /// violation, so those variants are excluded up front.
    pub fn paths(&self) -> (r: &Vec<String>)
        requires
            self is Modified || self is Deleted,
        ensures
            r@ == self.spec_paths(),
    {
        match self {
            Event::Modified(v) => v,
            Event::Deleted(v) => v,
            Event::RootChanged(_) => vstd::pervasive::unreached(),
            Event::Error => vstd::pervasive::unreached(),
        }
    }
}

} // verus!
