//! The watcher controller: configuration, validated construction, and the
//! idle / watching / stopped lifecycle that `start` and `stop` drive.

use vstd::prelude::*;

use crate::filter::{pattern_compiles, FilterModel, IgnoreFilter};

verus! {

/// Construction failed: the pattern carried here did not compile against the
/// root.
pub enum ConfigError {
    BadPattern(String),
}

/// `stop` was called on a watcher whose loop has already terminated.
pub enum StopError {
    AlreadyStopped,
}

/// The lifecycle of one watcher instance: built but not yet watching, loop
/// running, or terminated for good. There is no transition out of `Stopped`.
#[derive(Clone, Copy, PartialEq, Eq, Structural)]
pub enum LifecycleState {
    Idle,
    Watching,
    Stopped,
}

/// Collects the root directory and the ordered ignore-pattern list before
/// the watcher is built.
pub struct WatcherBuilder {
    pub root: String,
    pub patterns: Vec<String>,
}

impl WatcherBuilder {
    /// A builder for a watch rooted at `root`, with no patterns yet.
    pub fn new(root: String) -> (r: WatcherBuilder)
        ensures
            r.root == root,
            r.patterns@ =~= Seq::<String>::empty(),
    {
        WatcherBuilder { root, patterns: Vec::new() }
    }

    /// Appends one ignore pattern.
    pub fn add_pattern(&mut self, pattern: &str)
        ensures
            final(self).root == old(self).root,
            final(self).patterns.deep_view() == old(self).patterns.deep_view().push(pattern@),
    {
        self.patterns.push(pattern.to_owned());
        proof {
            assert(self.patterns.deep_view() =~= old(self).patterns.deep_view().push(pattern@));
        }
    }

    /// Appends every pattern of the list, in order.
    pub fn add_patterns(&mut self, patterns: &Vec<String>)
        ensures
            final(self).root == old(self).root,
            final(self).patterns.deep_view() == old(self).patterns.deep_view()
                + patterns.deep_view(),
    {
        let n = patterns.len();
        let mut i: usize = 0;
        proof {
            assert(self.patterns.deep_view() =~= old(self).patterns.deep_view()
                + patterns.deep_view().take(0));
        }
        while i < n
            invariant
                n == patterns.len(),
                0 <= i <= n,
                self.root == old(self).root,
                self.patterns.deep_view() == old(self).patterns.deep_view()
                    + patterns.deep_view().take(i as int),
            decreases n - i,
        {
            self.add_pattern(patterns[i].as_str());
            proof {
                assert(patterns.deep_view()[i as int] == patterns[i as int]@);
                assert(old(self).patterns.deep_view() + patterns.deep_view().take(i as int + 1)
                    =~= (old(self).patterns.deep_view() + patterns.deep_view().take(i as int)).push(
                    patterns[i as int]@,
                ));
            }
            i = i + 1;
        }
        proof {
            assert(patterns.deep_view().take(n as int) =~= patterns.deep_view());
        }
    }

    /// Validates the configuration: compiles every pattern against the root.
    /// On success the watcher core starts out idle, with the filter holding
    /// exactly this builder's root and patterns; on failure the error names
    /// the first pattern that did not compile.
    pub fn build(&self) -> (r: Result<WatcherCore, ConfigError>)
        ensures
            r matches Ok(core) ==> core.spec_filter()@ == (FilterModel {
                root: self.root@,
                patterns: self.patterns.deep_view(),
            }) && core.spec_state() is Idle,
            r is Ok <==> (forall|i: int|
                0 <= i < self.patterns.deep_view().len() ==> pattern_compiles(
                    #[trigger] self.patterns.deep_view()[i],
                    self.root@,
                )),
            r matches Err(e) ==> (e matches ConfigError::BadPattern(p) && exists|i: int|
                0 <= i < self.patterns.deep_view().len() && p@ == self.patterns.deep_view()[i]
                    && !pattern_compiles(self.patterns.deep_view()[i], self.root@)),
    {
        match IgnoreFilter::new(self.root.clone(), self.patterns.clone()) {
            Ok(filter) => Ok(WatcherCore { filter, state: LifecycleState::Idle }),
            Err(k) => {
                proof {
                    assert(self.patterns.deep_view()[k as int] == self.patterns[k as int]@);
                }
                Err(ConfigError::BadPattern(self.patterns[k].clone()))
            },
        }
    }
}

/// The verified heart of a watcher: the compiled ignore filter and the
/// lifecycle state. The unverified shell around it owns the subscription to
/// the raw event source and runs the loop; every decision it takes goes
/// through this type and the engine.
pub struct WatcherCore {
    filter: IgnoreFilter,
    state: LifecycleState,
}

impl WatcherCore {
    /// The compiled ignore filter.
    pub fn filter(&self) -> (r: &IgnoreFilter)
        ensures
            r == self.spec_filter(),
    {
        &self.filter
    }

    pub closed spec fn spec_filter(&self) -> IgnoreFilter {
        self.filter
    }

    /// Where the watcher stands in its lifecycle.
    pub fn state(&self) -> (r: LifecycleState)
        ensures
            r == self.spec_state(),
    {
        self.state
    }

    pub closed spec fn spec_state(&self) -> LifecycleState {
        self.state
    }

    /// Marks the watcher as watching. `start` may be called at most once per
    /// watcher instance, so this transition is only taken from `Idle`.
    pub fn begin_watch(&mut self)
        requires
            old(self).spec_state() is Idle,
        ensures
            final(self).spec_state() is Watching,
            final(self).spec_filter() == old(self).spec_filter(),
    {
        self.state = LifecycleState::Watching;
    }

    /// Requests termination. Fails if and only if the watcher is already
    /// stopped; otherwise the watcher is stopped for good.
    pub fn request_stop(&mut self) -> (r: Result<(), StopError>)
        ensures
            old(self).spec_state() is Stopped ==> (r matches Err(StopError::AlreadyStopped)
                && *final(self) == *old(self)),
            !(old(self).spec_state() is Stopped) ==> r is Ok && final(self).spec_state()
                is Stopped,
            final(self).spec_filter() == old(self).spec_filter(),
    {
        match self.state {
            LifecycleState::Stopped => Err(StopError::AlreadyStopped),
            _ => {
                self.state = LifecycleState::Stopped;
                Ok(())
            },
        }
    }
}

impl LifecycleState {
    /// Whether the lifecycle has reached its terminal state.
    pub fn is_stopped(&self) -> (r: bool)
        ensures
            r == (self is Stopped),
    {
        match self {
            LifecycleState::Stopped => true,
            _ => false,
        }
    }
}

} // verus!
