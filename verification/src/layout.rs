//! The layout object: resolved paths plus the owned lock handle, and the
//! directory materialization step.

use vstd::prelude::*;

use crate::paths::{LayoutModel, LayoutPaths, spec_resolved};

verus! {

/// The paths of all cache output locations of one layout version, together
/// with the handle of the exclusive lock on that version directory.
///
/// `L` is the caller's lock handle type (a value whose drop releases the
/// lock).  The handle is owned by this struct and dropped with it, so the
/// lock is released on every exit path once the layout is discarded —
/// including error exits after acquisition — and never before.
pub struct CacheLayout<L> {
    paths: LayoutPaths,
    lock: L,
}

impl<L> View for CacheLayout<L> {
    type V = LayoutModel;

    closed spec fn view(&self) -> LayoutModel {
        self.paths@
    }
}

impl<L> CacheLayout<L> {
    /// The stored lock handle.
    pub closed spec fn lock_handle(self) -> L {
        self.lock
    }

    /// The paths agree exactly with what the resolver computes from the
    /// root.
    pub open spec fn wf(self) -> bool {
        self@ == spec_resolved(self@.root)
    }

    /// Composes resolved paths and a freshly acquired lock handle into a
    /// layout.
    ///
    /// The lock must have just been acquired on the lock file of `paths`
    /// (see [`LayoutPaths::lock_file`]); from here on the handle lives and
    /// dies with the layout.
    pub fn new(paths: LayoutPaths, lock: L) -> (layout: CacheLayout<L>)
        requires
            paths.wf(),
        ensures
            layout.wf(),
            layout@ == paths@,
            layout.lock_handle() == lock,
    {
        CacheLayout { paths, lock }
    }

    /// Lists the directories that must exist before any artifact is written:
    /// `deps`, `.fingerprint` and `build`, in that order.  The caller ensures
    /// each of them (recursively) on the filesystem; this must happen while
    /// the lock is held, which is why the step lives on the locked layout.
    ///
    /// The layout itself is left unchanged, and the list depends on nothing
    /// but the layout's paths — repeating the step asks for exactly the same
    /// directories again.
    pub fn prepare(&mut self) -> (dirs: Vec<String>)
        ensures
            *final(self) == *old(self),
            dirs@.len() == 3,
            dirs@[0]@ == final(self)@.deps,
            dirs@[1]@ == final(self)@.fingerprint,
            dirs@[2]@ == final(self)@.build,
            forall|i: int|
                0 <= i < dirs@.len() ==> #[trigger] dirs@[i]@ == spec_prepare_dirs(
                    final(self)@,
                )[i],
    {
        let mut dirs: Vec<String> = Vec::new();
        dirs.push(String::from_str(self.paths.deps()));
        dirs.push(String::from_str(self.paths.fingerprint()));
        dirs.push(String::from_str(self.paths.build()));
        dirs
    }

    /// The configured cache root.
    pub fn root(&self) -> (r: &str)
        ensures
            r@ == self@.root,
    {
        self.paths.root()
    }

    /// The directory for the current layout version.
    pub fn dest(&self) -> (r: &str)
        ensures
            r@ == self@.dest,
    {
        self.paths.dest()
    }

    /// The artifact directory.
    pub fn deps(&self) -> (r: &str)
        ensures
            r@ == self@.deps,
    {
        self.paths.deps()
    }

    /// The build-script directory.
    pub fn build(&self) -> (r: &str)
        ensures
            r@ == self@.build,
    {
        self.paths.build()
    }

    /// The fingerprint directory.
    pub fn fingerprint(&self) -> (r: &str)
        ensures
            r@ == self@.fingerprint,
    {
        self.paths.fingerprint()
    }
}

/// A model of the relevant part of the filesystem: the set of directories
/// that exist.
#[verifier::ext_equal]
pub struct DirTree {
    pub dirs: Set<Seq<char>>,
}

/// What the materialization step asks of the filesystem, applied to the
/// model: the three subdirectories exist afterwards, and nothing else
/// changes.
pub open spec fn spec_apply_prepare(t: DirTree, m: LayoutModel) -> DirTree {
    DirTree { dirs: t.dirs.insert(m.deps).insert(m.fingerprint).insert(m.build) }
}

/// Law: the materialization step is idempotent — running it a second time on
/// the tree it produced succeeds with no effect: the tree is unchanged.
pub proof fn lemma_prepare_idempotent(t: DirTree, m: LayoutModel)
    ensures
        spec_apply_prepare(spec_apply_prepare(t, m), m) == spec_apply_prepare(t, m),
{
    assert(spec_apply_prepare(spec_apply_prepare(t, m), m).dirs =~= spec_apply_prepare(
        t,
        m,
    ).dirs);
}

/// The directories the materialization step lists, in creation order —
/// exactly what [`CacheLayout::prepare`] returns.
pub open spec fn spec_prepare_dirs(m: LayoutModel) -> Seq<Seq<char>> {
    seq![m.deps, m.fingerprint, m.build]
}

/// `t` after creating every directory of `ds`, first to last.
pub open spec fn spec_create_all(t: DirTree, ds: Seq<Seq<char>>) -> DirTree
    decreases ds.len(),
{
    if ds.len() == 0 {
        t
    } else {
        spec_create_all(DirTree { dirs: t.dirs.insert(ds[0]) }, ds.drop_first())
    }
}

/// Creating the three listed directories in order produces exactly the
/// modeled tree of the materialization step.
pub proof fn lemma_prepare_dirs_make_the_tree(t: DirTree, m: LayoutModel)
    ensures
        spec_create_all(t, spec_prepare_dirs(m)) == spec_apply_prepare(t, m),
{
    let ds = spec_prepare_dirs(m);
    let t1 = DirTree { dirs: t.dirs.insert(m.deps) };
    let t2 = DirTree { dirs: t1.dirs.insert(m.fingerprint) };
    let t3 = DirTree { dirs: t2.dirs.insert(m.build) };
    assert(ds.drop_first() =~= seq![m.fingerprint, m.build]);
    assert(ds.drop_first().drop_first() =~= seq![m.build]);
    assert(ds.drop_first().drop_first().drop_first() =~= Seq::<Seq<char>>::empty());
    assert(spec_create_all(t, ds) == spec_create_all(t1, ds.drop_first()));
    assert(spec_create_all(t1, ds.drop_first()) == spec_create_all(
        t2,
        ds.drop_first().drop_first(),
    ));
    assert(spec_create_all(t2, ds.drop_first().drop_first()) == spec_create_all(
        t3,
        ds.drop_first().drop_first().drop_first(),
    ));
    assert(t3 == spec_apply_prepare(t, m));
}

/// Law: the materialization step is idempotent, stated directly over the
/// list that [`CacheLayout::prepare`] returns — creating the listed
/// directories a second time leaves the tree of the first run unchanged.
pub proof fn lemma_prepare_list_idempotent(t: DirTree, m: LayoutModel)
    ensures
        spec_create_all(spec_create_all(t, spec_prepare_dirs(m)), spec_prepare_dirs(m))
            == spec_create_all(t, spec_prepare_dirs(m)),
{
    lemma_prepare_dirs_make_the_tree(t, m);
    lemma_prepare_dirs_make_the_tree(spec_apply_prepare(t, m), m);
    lemma_prepare_idempotent(t, m);
}

} // verus!
