use vstd::prelude::*;
use crate::path::{join_path, join_all, path_join, path_join_all, under, str_eq};
use crate::artifacts::strings_view;

verus! {

/// The name of the version-control metadata directory that copying skips.
pub open spec fn vcs_dir() -> Seq<char> {
    ".git"@
}

/// The private workspace under an output root: `build/` holds the working
/// copy of the source tree, `install/` the installed output.
#[derive(Debug)]
pub struct Workspace {
    pub output_root: String,
    pub build_dir: String,
    pub install_dir: String,
    pub src_dir: String,
}

impl Workspace {
    /// The layout under `root` for a source tree called `name`.
    pub open spec fn laid_out(&self, root: Seq<char>, name: Seq<char>) -> bool {
        &&& self.output_root@ == root
        &&& self.build_dir@ == path_join(root, "build"@)
        &&& self.install_dir@ == path_join(root, "install"@)
        &&& self.src_dir@ == path_join(path_join(root, "build"@), name)
    }

    /// Lays out the workspace under `output_root` for the source tree called
    /// `src_name`. An absent or empty output root is a configuration error.
    pub fn new(output_root: Option<&str>, src_name: &str) -> (r: Option<Workspace>)
        ensures
            r is Some <==> (output_root is Some && output_root->0@.len() > 0),
            r is Some ==> r->0.laid_out(output_root->0@, src_name@),
    {
        match output_root {
            None => None,
            Some(root) => {
                if root.unicode_len() == 0 {
                    None
                } else {
                    let build_dir = join_path(root, "build");
                    let src_dir = join_path(build_dir.as_str(), src_name);
                    Some(Workspace {
                        output_root: root.to_owned(),
                        install_dir: join_path(root, "install"),
                        build_dir,
                        src_dir,
                    })
                }
            },
        }
    }
}

/// A file or directory of the source tree, by its path relative to the
/// tree's root, one component per element.
#[derive(Debug)]
pub struct SourceEntry {
    pub rel: Vec<String>,
    pub is_dir: bool,
}

impl SourceEntry {
    pub open spec fn rel_view(&self) -> Seq<Seq<char>> {
        strings_view(self.rel@)
    }

    /// The entry lies in, or is, a version-control metadata directory: some
    /// directory on its path carries that name.
    pub open spec fn skipped(&self) -> bool {
        exists|i: int|
            0 <= i < self.rel@.len() && #[trigger] self.rel@[i]@ == vcs_dir() && (i
                < self.rel@.len() - 1 || self.is_dir)
    }

    /// Whether copying leaves this entry out.
    pub fn is_skipped(&self) -> (r: bool)
        ensures
            r == self.skipped(),
    {
        let n = self.rel.len();
        let mut i: usize = 0;
        while i < n
            invariant
                n == self.rel@.len(),
                i <= n,
                forall|j: int|
                    0 <= j < i ==> !(#[trigger] self.rel@[j]@ == vcs_dir() && (j < n - 1
                        || self.is_dir)),
            decreases n - i,
        {
            proof {
                reveal_strlit(".git");
            }
            if str_eq(self.rel[i].as_str(), ".git") && (i + 1 < n || self.is_dir) {
                return true;
            }
            i = i + 1;
        }
        false
    }
}

/// One filesystem operation of the workspace preparation.
#[derive(Debug)]
pub enum FsOp {
    /// Remove a directory and everything below it, if it exists.
    RemoveTree(String),
    /// Create a directory and any missing parents.
    CreateDir(String),
    /// Copy a regular file from the first path to the second.
    CopyFile(String, String),
}

pub enum FsOpView {
    RemoveTree(Seq<char>),
    CreateDir(Seq<char>),
    CopyFile(Seq<char>, Seq<char>),
}

impl View for FsOp {
    type V = FsOpView;

    open spec fn view(&self) -> FsOpView {
        match self {
            FsOp::RemoveTree(p) => FsOpView::RemoveTree(p@),
            FsOp::CreateDir(p) => FsOpView::CreateDir(p@),
            FsOp::CopyFile(a, b) => FsOpView::CopyFile(a@, b@),
        }
    }
}

pub open spec fn ops_view(ops: Seq<FsOp>) -> Seq<FsOpView> {
    ops.map_values(|o: FsOp| o@)
}

/// What copying one entry from `src` into `dst` takes.
pub open spec fn entry_ops(src: Seq<char>, dst: Seq<char>, e: SourceEntry) -> Seq<FsOpView> {
    if e.skipped() {
        Seq::empty()
    } else if e.is_dir {
        seq![FsOpView::CreateDir(path_join_all(dst, e.rel_view()))]
    } else {
        seq![
            FsOpView::CopyFile(path_join_all(src, e.rel_view()), path_join_all(dst, e.rel_view())),
        ]
    }
}

/// The copy of every entry, in order.
pub open spec fn copy_ops(src: Seq<char>, dst: Seq<char>, es: Seq<SourceEntry>) -> Seq<FsOpView>
    decreases es.len(),
{
    if es.len() == 0 {
        Seq::empty()
    } else {
        copy_ops(src, dst, es.drop_last()) + entry_ops(src, dst, es.last())
    }
}

impl Workspace {
    /// Preparation clears both subtrees, recreates them, and copies the
    /// source tree into the working copy.
    pub open spec fn plan_spec(&self, src: Seq<char>, es: Seq<SourceEntry>) -> Seq<FsOpView> {
        seq![
            FsOpView::RemoveTree(self.build_dir@),
            FsOpView::RemoveTree(self.install_dir@),
            FsOpView::CreateDir(self.build_dir@),
            FsOpView::CreateDir(self.install_dir@),
            FsOpView::CreateDir(self.src_dir@),
        ] + copy_ops(src, self.src_dir@, es)
    }

    /// The operations that prepare this workspace from the source tree at
    /// `source_root`, whose entries are `entries`.
    pub fn prepare_plan(&self, source_root: &str, entries: &Vec<SourceEntry>) -> (r: Vec<FsOp>)
        ensures
            ops_view(r@) == self.plan_spec(source_root@, entries@),
    {
        let mut r: Vec<FsOp> = Vec::new();
        r.push(FsOp::RemoveTree(self.build_dir.clone()));
        r.push(FsOp::RemoveTree(self.install_dir.clone()));
        r.push(FsOp::CreateDir(self.build_dir.clone()));
        r.push(FsOp::CreateDir(self.install_dir.clone()));
        r.push(FsOp::CreateDir(self.src_dir.clone()));
        proof {
            assert(ops_view(r@) =~= self.plan_spec(source_root@, entries@.subrange(0, 0)));
        }
        let mut i: usize = 0;
        while i < entries.len()
            invariant
                i <= entries.len(),
                ops_view(r@) == self.plan_spec(source_root@, entries@.subrange(0, i as int)),
            decreases entries.len() - i,
        {
            let e = &entries[i];
            let ghost before = ops_view(r@);
            if !e.is_skipped() {
                let to = join_all(self.src_dir.as_str(), &e.rel);
                if e.is_dir {
                    r.push(FsOp::CreateDir(to));
                } else {
                    let from = join_all(source_root, &e.rel);
                    r.push(FsOp::CopyFile(from, to));
                }
            }
            proof {
                let pre = entries@.subrange(0, i as int);
                let post = entries@.subrange(0, i as int + 1);
                assert(post.drop_last() =~= pre);
                assert(ops_view(r@) =~= before + entry_ops(source_root@, self.src_dir@, *e));
            }
            i = i + 1;
        }
        proof {
            assert(entries@.subrange(0, entries@.len() as int) =~= entries@);
        }
        r
    }
}

/// Entries that copying does not skip.
pub open spec fn kept(es: Seq<SourceEntry>) -> Seq<SourceEntry> {
    es.filter(|e: SourceEntry| !e.skipped())
}

/// Copying walks past every entry inside a version-control metadata
/// directory, at any depth: the copy is exactly that of the entries that lie
/// outside such directories, and a tree without one is copied whole.
pub proof fn lemma_copy_skips_vcs(src: Seq<char>, dst: Seq<char>, es: Seq<SourceEntry>)
    ensures
        copy_ops(src, dst, es) == copy_ops(src, dst, kept(es)),
        forall|i: int| 0 <= i < kept(es).len() ==> !(#[trigger] kept(es)[i]).skipped(),
        (forall|i: int| 0 <= i < es.len() ==> !(#[trigger] es[i]).skipped()) ==> kept(es) == es,
    decreases es.len(),
{
    reveal(Seq::filter);
    let p = |e: SourceEntry| !e.skipped();
    es.filter_lemma(p);
    if es.len() > 0 {
        lemma_copy_skips_vcs(src, dst, es.drop_last());
        let rest = kept(es.drop_last());
        assert(kept(es) == if !es.last().skipped() {
            rest.push(es.last())
        } else {
            rest
        });
        if !es.last().skipped() {
            assert(kept(es).drop_last() =~= rest);
        } else {
            assert(entry_ops(src, dst, es.last()) =~= Seq::<FsOpView>::empty());
            assert(copy_ops(src, dst, es) =~= copy_ops(src, dst, es.drop_last()));
        }
        if forall|i: int| 0 <= i < es.len() ==> !(#[trigger] es[i]).skipped() {
            assert forall|i: int| 0 <= i < es.drop_last().len() implies !(
            #[trigger] es.drop_last()[i]).skipped() by {
                assert(es.drop_last()[i] == es[i]);
            }
            assert(!es[es.len() - 1].skipped());
            assert(es.drop_last().push(es.last()) =~= es);
        }
    } else {
        assert(kept(es) =~= es);
    }
}

/// The paths present on disk, as a set.
pub open spec fn apply_op(fs: Set<Seq<char>>, op: FsOpView) -> Set<Seq<char>> {
    match op {
        FsOpView::RemoveTree(p) => fs.filter(|q: Seq<char>| !under(p, q)),
        FsOpView::CreateDir(p) => fs.insert(p),
        FsOpView::CopyFile(_, to) => fs.insert(to),
    }
}

/// The paths present after performing `ops` in order, starting from `fs`.
pub open spec fn apply_ops(fs: Set<Seq<char>>, ops: Seq<FsOpView>) -> Set<Seq<char>>
    decreases ops.len(),
{
    if ops.len() == 0 {
        fs
    } else {
        apply_op(apply_ops(fs, ops.drop_last()), ops.last())
    }
}

/// The part of `fs` at or below the directory `dir`.
pub open spec fn subtree(fs: Set<Seq<char>>, dir: Seq<char>) -> Set<Seq<char>> {
    fs.filter(|q: Seq<char>| under(dir, q))
}

proof fn lemma_subtree_contains(fs: Set<Seq<char>>, dir: Seq<char>, q: Seq<char>)
    ensures
        subtree(fs, dir).contains(q) == (fs.contains(q) && under(dir, q)),
{
    assert(Set::new(|q: Seq<char>| under(dir, q)).contains(q) == under(dir, q));
}

proof fn lemma_apply_op_subtree(fs1: Set<Seq<char>>, fs2: Set<Seq<char>>, op: FsOpView, dir: Seq<char>)
    requires
        subtree(fs1, dir) == subtree(fs2, dir),
    ensures
        subtree(apply_op(fs1, op), dir) == subtree(apply_op(fs2, op), dir),
{
    assert forall|q: Seq<char>| #[trigger] subtree(apply_op(fs1, op), dir).contains(q)
        == subtree(apply_op(fs2, op), dir).contains(q) by {
        assert(subtree(fs1, dir).contains(q) == subtree(fs2, dir).contains(q));
        lemma_subtree_contains(fs1, dir, q);
        lemma_subtree_contains(fs2, dir, q);
        lemma_subtree_contains(apply_op(fs1, op), dir, q);
        lemma_subtree_contains(apply_op(fs2, op), dir, q);
        match op {
            FsOpView::RemoveTree(p) => {
                assert(apply_op(fs1, op).contains(q) == (fs1.contains(q) && !under(p, q)));
                assert(apply_op(fs2, op).contains(q) == (fs2.contains(q) && !under(p, q)));
            },
            FsOpView::CreateDir(p) => {},
            FsOpView::CopyFile(_, to) => {},
        }
    }
    assert(subtree(apply_op(fs1, op), dir) =~= subtree(apply_op(fs2, op), dir));
}

/// Once a sequence of operations removes `dir` as a whole, what it leaves
/// below `dir` no longer depends on the state it started from.
proof fn lemma_subtree_after_removal(
    fs1: Set<Seq<char>>,
    fs2: Set<Seq<char>>,
    ops: Seq<FsOpView>,
    dir: Seq<char>,
    k: int,
)
    requires
        0 <= k < ops.len(),
        ops[k] == FsOpView::RemoveTree(dir),
    ensures
        subtree(apply_ops(fs1, ops), dir) == subtree(apply_ops(fs2, ops), dir),
    decreases ops.len(),
{
    if k == ops.len() - 1 {
        let a = subtree(apply_ops(fs1, ops), dir);
        let b = subtree(apply_ops(fs2, ops), dir);
        assert(a =~= Set::<Seq<char>>::empty());
        assert(b =~= Set::<Seq<char>>::empty());
    } else {
        lemma_subtree_after_removal(fs1, fs2, ops.drop_last(), dir, k);
        lemma_apply_op_subtree(
            apply_ops(fs1, ops.drop_last()),
            apply_ops(fs2, ops.drop_last()),
            ops.last(),
            dir,
        );
    }
}

/// Preparing a workspace twice leaves the same `build/` and `install/`
/// trees as preparing it once, and both equal those of a preparation from
/// nothing: no leftover of an earlier run survives.
pub proof fn lemma_prepare_idempotent(
    ws: Workspace,
    src: Seq<char>,
    es: Seq<SourceEntry>,
    fs: Set<Seq<char>>,
)
    ensures
        ({
            let plan = ws.plan_spec(src, es);
            let once = apply_ops(fs, plan);
            let twice = apply_ops(once, plan);
            let fresh = apply_ops(Set::empty(), plan);
            &&& subtree(twice, ws.build_dir@) == subtree(once, ws.build_dir@)
            &&& subtree(once, ws.build_dir@) == subtree(fresh, ws.build_dir@)
            &&& subtree(twice, ws.install_dir@) == subtree(once, ws.install_dir@)
            &&& subtree(once, ws.install_dir@) == subtree(fresh, ws.install_dir@)
        }),
{
    let plan = ws.plan_spec(src, es);
    let once = apply_ops(fs, plan);
    assert(plan[0] == FsOpView::RemoveTree(ws.build_dir@));
    assert(plan[1] == FsOpView::RemoveTree(ws.install_dir@));
    lemma_subtree_after_removal(once, fs, plan, ws.build_dir@, 0);
    lemma_subtree_after_removal(fs, Set::empty(), plan, ws.build_dir@, 0);
    lemma_subtree_after_removal(once, fs, plan, ws.install_dir@, 1);
    lemma_subtree_after_removal(fs, Set::empty(), plan, ws.install_dir@, 1);
}

} // verus!
