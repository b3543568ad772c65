//! The path resolver: a pure mapping from the configured cache root to the
//! full directory tree of the current layout version.
//!
//! Paths are plain strings joined with `/`; no I/O happens here.

use vstd::prelude::*;

verus! {

/// The layout format version.  Bump this (and only this) to make a breaking
/// change to the cache layout: the new version gets a fully disjoint subtree
/// and the old one is left untouched.
pub open spec fn spec_version() -> Seq<char> {
    "0"@
}

/// The layout format version as an executable string.
pub fn cache_version() -> (v: &'static str)
    ensures
        v@ == spec_version(),
{
    "0"
}

/// `parent` and `name` joined with a single separator.
pub open spec fn spec_join(parent: Seq<char>, name: Seq<char>) -> Seq<char> {
    parent + "/"@ + name
}

/// Joins one path component onto a parent path.
pub fn join(parent: &str, name: &str) -> (r: String)
    ensures
        r@ == spec_join(parent@, name@),
{
    let mut r = String::from_str(parent);
    r.append("/");
    r.append(name);
    r
}

/// The version directory for `root` under an arbitrary version label.
pub open spec fn spec_dest_at(root: Seq<char>, label: Seq<char>) -> Seq<char> {
    spec_join(root, label)
}

/// The version directory for `root`: every path the cache touches lives
/// under it.
pub open spec fn spec_dest(root: Seq<char>) -> Seq<char> {
    spec_dest_at(root, spec_version())
}

/// The lock file guarding the version directory for `root`.
pub open spec fn spec_lock_file(root: Seq<char>) -> Seq<char> {
    spec_join(spec_dest(root), ".cargo-lock"@)
}

/// The mathematical model of a resolved layout: the five paths the cache
/// hands out.
#[verifier::ext_equal]
pub struct LayoutModel {
    pub root: Seq<char>,
    pub dest: Seq<char>,
    pub deps: Seq<char>,
    pub build: Seq<char>,
    pub fingerprint: Seq<char>,
}

/// The tree resolved from `root` under an arbitrary version label: `dest` is
/// the version directory, and `deps`, `build` and `.fingerprint` are its
/// direct children, under those exact names.
pub open spec fn spec_resolved_at(root: Seq<char>, label: Seq<char>) -> LayoutModel {
    LayoutModel {
        root: root,
        dest: spec_dest_at(root, label),
        deps: spec_join(spec_dest_at(root, label), "deps"@),
        build: spec_join(spec_dest_at(root, label), "build"@),
        fingerprint: spec_join(spec_dest_at(root, label), ".fingerprint"@),
    }
}

/// What resolving `root` must produce: the tree of the current layout
/// version.
pub open spec fn spec_resolved(root: Seq<char>) -> LayoutModel {
    spec_resolved_at(root, spec_version())
}

/// The resolved directory tree of one layout version: the output of the path
/// resolver, not yet locked.
///
/// A value of this type is only ever built by [`LayoutPaths::resolve`], so it
/// always satisfies [`LayoutPaths::wf`].
pub struct LayoutPaths {
    root: String,
    dest: String,
    deps: String,
    build: String,
    fingerprint: String,
}

impl View for LayoutPaths {
    type V = LayoutModel;

    closed spec fn view(&self) -> LayoutModel {
        LayoutModel {
            root: self.root@,
            dest: self.dest@,
            deps: self.deps@,
            build: self.build@,
            fingerprint: self.fingerprint@,
        }
    }
}

impl LayoutPaths {
    /// The paths agree exactly with what the resolver computes from `root`.
    pub open spec fn wf(self) -> bool {
        self@ == spec_resolved(self@.root)
    }

    /// Resolves the directory tree for a configured cache root.
    ///
    /// An absent root is the valid "caching disabled" outcome, not an error:
    /// it yields `None`, and nothing else happens.  This function does no
    /// I/O at all.
    pub fn resolve(root: Option<String>) -> (r: Option<LayoutPaths>)
        ensures
            r is Some <==> root is Some,
            r matches Some(p) ==> p.wf(),
            r matches Some(p) ==> (root matches Some(given) && p@.root == given@),
    {
        match root {
            None => None,
            Some(root) => {
                let dest = join(root.as_str(), cache_version());
                let deps = join(dest.as_str(), "deps");
                let build = join(dest.as_str(), "build");
                let fingerprint = join(dest.as_str(), ".fingerprint");
                Some(LayoutPaths { root, dest, deps, build, fingerprint })
            },
        }
    }

    /// The configured cache root.
    pub fn root(&self) -> (r: &str)
        ensures
            r@ == self@.root,
    {
        self.root.as_str()
    }

    /// The version directory, for the caller's existence check and one-time
    /// creation.
    pub fn dest(&self) -> (r: &str)
        ensures
            r@ == self@.dest,
    {
        self.dest.as_str()
    }

    /// The artifact directory `dest/deps`.
    pub fn deps(&self) -> (r: &str)
        ensures
            r@ == self@.deps,
    {
        self.deps.as_str()
    }

    /// The build-script directory `dest/build`.
    pub fn build(&self) -> (r: &str)
        ensures
            r@ == self@.build,
    {
        self.build.as_str()
    }

    /// The fingerprint directory `dest/.fingerprint`.
    pub fn fingerprint(&self) -> (r: &str)
        ensures
            r@ == self@.fingerprint,
    {
        self.fingerprint.as_str()
    }

    /// The fixed-name lock file directly under the version directory.
    pub fn lock_file(&self) -> (r: String)
        ensures
            r@ == spec_join(self@.dest, ".cargo-lock"@),
            self.wf() ==> r@ == spec_lock_file(self@.root),
    {
        join(self.dest.as_str(), ".cargo-lock")
    }

    /// Decides the one-time creation step: the version directory is created
    /// (and the backup-exclusion hint attempted on it, since it is then a
    /// freshly created directory) exactly when it does not already exist.
    pub fn creation_needed(&self, dest_exists: bool) -> (create: bool)
        ensures
            create == !dest_exists,
    {
        !dest_exists
    }

    /// Hands setup on after the backup-exclusion hint was attempted: whatever
    /// the hint's outcome, the next step is the same — lock this file.
    ///
    /// The hint is a pure best-effort hint; its failure is absorbed here and
    /// can never surface as a build error.
    pub fn after_backup_hint(&self, hint_applied: bool) -> (lock_file: String)
        ensures
            lock_file@ == spec_next_after_hint(self@, hint_applied),
            lock_file@ == spec_join(self@.dest, ".cargo-lock"@),
    {
        self.lock_file()
    }
}

/// The step that follows the backup-exclusion hint: lock the fixed-name lock
/// file.  By definition this does not depend on the hint's outcome.
pub open spec fn spec_next_after_hint(m: LayoutModel, hint_applied: bool) -> Seq<char> {
    spec_join(m.dest, ".cargo-lock"@)
}

/// Law: a failure of the backup-exclusion hint is harmless — setup continues
/// with exactly the same next step whether the hint was applied or not, so an
/// injected failure in that step can never propagate as a build error.
pub proof fn lemma_backup_hint_failure_harmless(m: LayoutModel, h1: bool, h2: bool)
    ensures
        spec_next_after_hint(m, h1) == spec_next_after_hint(m, h2),
{
}

/// Law: for every root, the resolved tree has `dest = root/VERSION`, and
/// `deps`, `build` and `.fingerprint` as direct children of `dest` under
/// exactly those names.
pub proof fn lemma_resolved_shape(root: Seq<char>)
    ensures
        spec_resolved(root).root == root,
        spec_resolved(root).dest == spec_join(root, spec_version()),
        spec_resolved(root).deps == spec_join(spec_resolved(root).dest, "deps"@),
        spec_resolved(root).build == spec_join(spec_resolved(root).dest, "build"@),
        spec_resolved(root).fingerprint == spec_join(spec_resolved(root).dest, ".fingerprint"@),
        spec_lock_file(root) == spec_join(spec_resolved(root).dest, ".cargo-lock"@),
{
}

/// `p` lies in the tree rooted at directory `d`: it is `d` itself or a path
/// below it.
pub open spec fn spec_under(p: Seq<char>, d: Seq<char>) -> bool {
    d.is_prefix_of(p) && (p.len() == d.len() || p[d.len() as int] == '/')
}

/// Every path a layout exposes for reading or writing: the version
/// directory itself, its three subdirectories, and the lock file.
pub open spec fn spec_exposed_paths(m: LayoutModel) -> Set<Seq<char>> {
    set![m.dest, m.deps, m.build, m.fingerprint, spec_join(m.dest, ".cargo-lock"@)]
}

/// A directory lies in its own tree.
pub proof fn lemma_under_self(d: Seq<char>)
    ensures
        spec_under(d, d),
{
    assert(d =~= d.subrange(0, d.len() as int));
}

/// A path joined one component below a directory lies in that directory's
/// tree.
pub proof fn lemma_join_under(d: Seq<char>, name: Seq<char>)
    ensures
        spec_under(spec_join(d, name), d),
{
    reveal_strlit("/");
    assert(d =~= spec_join(d, name).subrange(0, d.len() as int));
    assert(spec_join(d, name)[d.len() as int] == '/');
}

/// Law: every path a layout exposes lies in the tree of its own version
/// directory — a layout never hands out a path outside it.
pub proof fn lemma_exposed_paths_under_dest(root: Seq<char>, label: Seq<char>, p: Seq<char>)
    requires
        spec_exposed_paths(spec_resolved_at(root, label)).contains(p),
    ensures
        spec_under(p, spec_dest_at(root, label)),
{
    let d = spec_dest_at(root, label);
    lemma_under_self(d);
    lemma_join_under(d, "deps"@);
    lemma_join_under(d, "build"@);
    lemma_join_under(d, ".fingerprint"@);
    lemma_join_under(d, ".cargo-lock"@);
}

/// Law: two different version labels of the same length give fully disjoint
/// trees: no path lies under both version directories.
pub proof fn lemma_distinct_versions_disjoint(
    root: Seq<char>,
    label1: Seq<char>,
    label2: Seq<char>,
    p: Seq<char>,
)
    requires
        label1.len() == label2.len(),
        label1 != label2,
    ensures
        !(spec_under(p, spec_dest_at(root, label1)) && spec_under(p, spec_dest_at(root, label2))),
{
    reveal_strlit("/");
    let d1 = spec_dest_at(root, label1);
    let d2 = spec_dest_at(root, label2);
    if spec_under(p, d1) && spec_under(p, d2) {
        assert(d1 =~= p.subrange(0, d1.len() as int));
        assert(d2 =~= p.subrange(0, d2.len() as int));
        assert(label1 =~= label2) by {
            assert forall|i: int| 0 <= i < label1.len() implies label1[i] == label2[i] by {
                assert(d1[root.len() + 1 + i] == label1[i]);
                assert(d2[root.len() + 1 + i] == label2[i]);
            }
        }
        assert(false);
    }
}

/// Law: a layout resolved at a new version label never reads or writes under
/// the old version directory, provided the two labels have equal length and
/// differ (as `"0"` and `"1"` do): none of its exposed paths lies in the old
/// tree.
pub proof fn lemma_bumped_layout_avoids_old_tree(
    root: Seq<char>,
    prev_label: Seq<char>,
    next_label: Seq<char>,
    p: Seq<char>,
)
    requires
        prev_label.len() == next_label.len(),
        prev_label != next_label,
        spec_exposed_paths(spec_resolved_at(root, next_label)).contains(p),
    ensures
        !spec_under(p, spec_dest_at(root, prev_label)),
{
    lemma_exposed_paths_under_dest(root, next_label, p);
    lemma_distinct_versions_disjoint(root, prev_label, next_label, p);
}

/// Law: bumping the version label from `"0"` to `"1"` produces a fully
/// disjoint tree — no path at all lies in both trees, and a layout resolved
/// at `"1"` never touches a path under the `"0"` directory.
pub proof fn lemma_version_bump_zero_to_one(root: Seq<char>, p: Seq<char>)
    ensures
        !(spec_under(p, spec_dest_at(root, "0"@)) && spec_under(p, spec_dest_at(root, "1"@))),
        spec_exposed_paths(spec_resolved_at(root, "1"@)).contains(p) ==> !spec_under(
            p,
            spec_dest_at(root, "0"@),
        ),
{
    reveal_strlit("0");
    reveal_strlit("1");
    assert("0"@.len() == 1);
    assert("1"@.len() == 1);
    assert("0"@[0] != "1"@[0]);
    assert("0"@ != "1"@);
    lemma_distinct_versions_disjoint(root, "0"@, "1"@, p);
    if spec_exposed_paths(spec_resolved_at(root, "1"@)).contains(p) {
        lemma_bumped_layout_avoids_old_tree(root, "0"@, "1"@, p);
    }
}

} // verus!
