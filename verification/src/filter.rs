//! The ignore filter: gitignore-style patterns compiled against a root
//! directory, answering whether a path is excluded from reporting.
//!
//! Pattern compilation and matching are done by the `gitignore` crate; both
//! depend only on the pattern, root and path strings and the directory flag,
//! so their results are named by uninterpreted spec functions and everything
//! around the calls is verified against those names.

use vstd::prelude::*;

verus! {

/// Whether `gitignore::Pattern::new(pattern, root)` succeeds. Compilation
/// reads nothing but the two strings, so its outcome is a function of them.
pub uninterp spec fn pattern_compiles(pattern: Seq<char>, root: Seq<char>) -> bool;

/// What `gitignore::Pattern::is_excluded(path, is_dir)` returns for a pattern
/// compiled from `pattern` against `root`. Matching is pure glob evaluation
/// over the strings and the directory flag.
pub uninterp spec fn pattern_excludes(
    pattern: Seq<char>,
    root: Seq<char>,
    path: Seq<char>,
    is_dir: bool,
) -> bool;

/// Relies on gitignore::Pattern::new: it parses the raw pattern and compiles
/// the resulting glob, consulting nothing but its two string arguments, so
/// whether it returns Ok is a function of them alone.
#[verifier::external_body]
fn compile_check(pattern: &String, root: &String) -> (r: bool)
    ensures
        r == pattern_compiles(pattern@, root@),
{
    gitignore::Pattern::new(pattern.as_str(), std::path::Path::new(root.as_str())).is_ok()
}

/// Relies on gitignore::Pattern::new and gitignore::Pattern::is_excluded.
/// A compiled pattern borrows the root path, so it cannot be stored across
/// calls; the pattern is recompiled here and matched in one step. Matching is
/// pure glob evaluation, a function of the three strings and the flag alone.
#[verifier::external_body]
fn match_check(pattern: &String, root: &String, path: &String, is_dir: bool) -> (r: bool)
    requires
        pattern_compiles(pattern@, root@),
    ensures
        r == pattern_excludes(pattern@, root@, path@, is_dir),
{
    match gitignore::Pattern::new(pattern.as_str(), std::path::Path::new(root.as_str())) {
        Ok(p) => p.is_excluded(std::path::Path::new(path.as_str()), is_dir),
        Err(_) => false,
    }
}

/// The mathematical content of an ignore filter: the root it was compiled
/// against and the ordered pattern list.
pub ghost struct FilterModel {
    pub root: Seq<char>,
    pub patterns: Seq<Seq<char>>,
}

impl FilterModel {
    /// A path is excluded when any pattern of the list excludes it.
    pub open spec fn excludes(self, path: Seq<char>, is_dir: bool) -> bool {
        exists|i: int|
            0 <= i < self.patterns.len() && pattern_excludes(
                self.patterns[i],
                self.root,
                path,
                is_dir,
            )
    }

    /// Every pattern of the list compiles against the root.
    pub open spec fn all_compile(self) -> bool {
        forall|i: int|
            0 <= i < self.patterns.len() ==> pattern_compiles(#[trigger] self.patterns[i], self.root)
    }
}

/// A set of ignore patterns compiled against a root directory. A value only
/// exists when every pattern compiles, so matching never has to fail.
pub struct IgnoreFilter {
    root: String,
    patterns: Vec<String>,
}

impl View for IgnoreFilter {
    type V = FilterModel;

    closed spec fn view(&self) -> FilterModel {
        FilterModel { root: self.root@, patterns: self.patterns.deep_view() }
    }
}

impl IgnoreFilter {
    #[verifier::type_invariant]
    spec fn inv(self) -> bool {
        self@.all_compile()
    }

    /// Compiles `patterns` against `root`. Returns the filter when every
    /// pattern compiles, and the index of the first pattern that does not
    /// otherwise.
    pub fn new(root: String, patterns: Vec<String>) -> (r: Result<IgnoreFilter, usize>)
        ensures
            r matches Ok(f) ==> f@ == (FilterModel {
                root: root@,
                patterns: patterns.deep_view(),
            }),
            r is Ok <==> (forall|i: int|
                0 <= i < patterns.deep_view().len() ==> pattern_compiles(
                    #[trigger] patterns.deep_view()[i],
                    root@,
                )),
            r matches Err(k) ==> 0 <= k < patterns.deep_view().len() && !pattern_compiles(
                patterns.deep_view()[k as int],
                root@,
            ) && (forall|j: int|
                0 <= j < k ==> pattern_compiles(#[trigger] patterns.deep_view()[j], root@)),
    {
        let n = patterns.len();
        let mut i: usize = 0;
        while i < n
            invariant
                n == patterns.len(),
                0 <= i <= n,
                forall|j: int|
                    0 <= j < i ==> pattern_compiles(#[trigger] patterns.deep_view()[j], root@),
            decreases n - i,
        {
            if !compile_check(&patterns[i], &root) {
                assert(patterns.deep_view()[i as int] == patterns[i as int]@);
                return Err(i);
            }
            assert(patterns.deep_view()[i as int] == patterns[i as int]@);
            i = i + 1;
        }
        Ok(IgnoreFilter { root, patterns })
    }

    /// Whether any pattern of the filter excludes `path`, taken as a
    /// directory when `is_dir` holds.
    pub fn is_excluded(&self, path: &String, is_dir: bool) -> (r: bool)
        ensures
            r == self@.excludes(path@, is_dir),
    {
        proof {
            use_type_invariant(self);
        }
        let n = self.patterns.len();
        let mut i: usize = 0;
        while i < n
            invariant
                n == self.patterns.len(),
                0 <= i <= n,
                self@.all_compile(),
                forall|j: int|
                    0 <= j < i ==> !pattern_excludes(
                        #[trigger] self@.patterns[j],
                        self@.root,
                        path@,
                        is_dir,
                    ),
            decreases n - i,
        {
            assert(self@.patterns[i as int] == self.patterns[i as int]@);
            if match_check(&self.patterns[i], &self.root, path, is_dir) {
                return true;
            }
            i = i + 1;
        }
        false
    }

    /// The root the patterns were compiled against.
    pub fn root(&self) -> (r: &String)
        ensures
            r@ == self@.root,
    {
        &self.root
    }

    /// The pattern list, in the order the filter consults it.
    pub fn patterns(&self) -> (r: &Vec<String>)
        ensures
            r.deep_view() == self@.patterns,
    {
        &self.patterns
    }
}

} // verus!
