//! A model of the directory tree the tools touch.  Paths are component
//! lists; the model records which directories and files exist.  The
//! teardown logic is verified against this model; the shell around the
//! library mirrors each model step with one real filesystem call.

use vstd::prelude::*;

verus! {

/// Some element of `v` denotes the path `p`.
pub open spec fn has_path(v: Seq<Vec<String>>, p: Seq<Seq<char>>) -> bool {
    exists|i: int| 0 <= i < v.len() && v[i].deep_view() == p
}

/// `p` is a (not necessarily strict) prefix of `q`.
pub open spec fn is_prefix(p: Seq<Seq<char>>, q: Seq<Seq<char>>) -> bool {
    p.len() <= q.len() && q.subrange(0, p.len() as int) == p
}

/// `p` is a strict prefix of `q`: `q` lies strictly under `p`.
pub open spec fn is_strict_prefix(p: Seq<Seq<char>>, q: Seq<Seq<char>>) -> bool {
    is_prefix(p, q) && p.len() < q.len()
}

/// The two paths denote the same component list.
pub fn path_eq(a: &Vec<String>, b: &Vec<String>) -> (r: bool)
    ensures
        r == (a.deep_view() == b.deep_view()),
{
    if a.len() != b.len() {
        proof {
            assert(a.deep_view().len() == a@.len());
            assert(b.deep_view().len() == b@.len());
        }
        return false;
    }
    let mut i: usize = 0;
    while i < a.len()
        invariant
            i <= a.len(),
            a@.len() == b@.len(),
            forall|j: int| 0 <= j < i ==> a@[j]@ == b@[j]@,
        decreases a.len() - i,
    {
        if !a[i].eq(&b[i]) {
            proof {
                assert(a.deep_view()[i as int] == a@[i as int]@);
                assert(b.deep_view()[i as int] == b@[i as int]@);
            }
            return false;
        }
        i += 1;
    }
    proof {
        assert(a.deep_view() =~= b.deep_view());
    }
    true
}

/// Whether `p` is a prefix of `q`, component by component.
pub fn path_is_prefix(p: &Vec<String>, q: &Vec<String>) -> (r: bool)
    ensures
        r == is_prefix(p.deep_view(), q.deep_view()),
{
    if p.len() > q.len() {
        proof {
            assert(p.deep_view().len() == p@.len());
            assert(q.deep_view().len() == q@.len());
        }
        return false;
    }
    let mut i: usize = 0;
    while i < p.len()
        invariant
            i <= p.len(),
            p@.len() <= q@.len(),
            forall|j: int| 0 <= j < i ==> p@[j]@ == q@[j]@,
        decreases p.len() - i,
    {
        if !p[i].eq(&q[i]) {
            proof {
                let pv = p.deep_view();
                let qv = q.deep_view();
                assert(pv[i as int] == p@[i as int]@);
                assert(qv.subrange(0, pv.len() as int)[i as int] == q@[i as int]@);
            }
            return false;
        }
        i += 1;
    }
    proof {
        let pv = p.deep_view();
        let qv = q.deep_view();
        assert forall|j: int| 0 <= j < pv.len() implies qv.subrange(0, pv.len() as int)[j]
            == pv[j] by {
            assert(pv[j] == p@[j]@);
            assert(qv[j] == q@[j]@);
        }
        assert(qv.subrange(0, pv.len() as int) =~= pv);
    }
    true
}

/// Prefixes are transitive.
pub proof fn lemma_prefix_trans(a: Seq<Seq<char>>, b: Seq<Seq<char>>, c: Seq<Seq<char>>)
    requires
        is_prefix(a, b),
        is_prefix(b, c),
    ensures
        is_prefix(a, c),
{
    assert(c.subrange(0, a.len() as int) =~= c.subrange(0, b.len() as int).subrange(
        0,
        a.len() as int,
    ));
}

/// Two prefixes of one path are ordered by length: the shorter is a
/// prefix of the longer.
pub proof fn lemma_prefix_linear(a: Seq<Seq<char>>, b: Seq<Seq<char>>, c: Seq<Seq<char>>)
    requires
        is_prefix(a, c),
        is_prefix(b, c),
        a.len() <= b.len(),
    ensures
        is_prefix(a, b),
{
    assert(b.subrange(0, a.len() as int) =~= c.subrange(0, b.len() as int).subrange(
        0,
        a.len() as int,
    ));
    assert(c.subrange(0, a.len() as int) =~= c.subrange(0, b.len() as int).subrange(
        0,
        a.len() as int,
    ));
}

/// A copy of the path, component by component.
pub fn clone_path(p: &Vec<String>) -> (r: Vec<String>)
    ensures
        r@ == p@,
        r.deep_view() == p.deep_view(),
{
    let mut r: Vec<String> = Vec::new();
    let mut i: usize = 0;
    while i < p.len()
        invariant
            i <= p.len(),
            r@.len() == i,
            forall|j: int| 0 <= j < i ==> r@[j] == p@[j],
        decreases p.len() - i,
    {
        r.push(p[i].clone());
        i += 1;
    }
    proof {
        assert(r@ =~= p@);
        assert(r.deep_view() =~= p.deep_view());
    }
    r
}

/// Whether `q` is struck by a removal of `p`: the path itself, or
/// everything under it as well.
pub open spec fn matches_removal(p: Seq<Seq<char>>, q: Seq<Seq<char>>, whole_tree: bool) -> bool {
    if whole_tree {
        is_prefix(p, q)
    } else {
        q == p
    }
}

/// Under `b` there is nothing but the chain of directories leading to
/// `p`: no file at all, and every directory strictly under `b` lies
/// strictly on the way to `p`.
pub open spec fn only_chain_under(fs: FsModel, p: Seq<Seq<char>>, b: Seq<Seq<char>>) -> bool {
    &&& forall|e: Seq<Seq<char>>| #[trigger] fs.file_at(e) ==> !is_strict_prefix(b, e)
    &&& forall|e: Seq<Seq<char>>|
        (#[trigger] fs.dir_at(e)) && is_strict_prefix(b, e) ==> is_strict_prefix(e, p)
}

/// The upward walk from `p` removes the ancestor `a`: every directory
/// from `a` up to (but excluding) `p` exists and holds nothing but
/// that chain, so each removal in turn finds it empty.
pub open spec fn ancestor_cleared(fs: FsModel, p: Seq<Seq<char>>, a: Seq<Seq<char>>) -> bool {
    &&& is_strict_prefix(a, p)
    &&& a.len() >= 1
    &&& forall|b: Seq<Seq<char>>|
        (#[trigger] is_prefix(a, b)) && is_strict_prefix(b, p) ==> fs.dir_at(b)
            && only_chain_under(fs, p, b)
}

/// As `ancestor_cleared`, but judged on the tree as it stood before
/// the subtree at `p` was removed: entries at or under `p` do not
/// count against the emptiness of an ancestor.
pub open spec fn cleared_after_removal(fs: FsModel, p: Seq<Seq<char>>, a: Seq<Seq<char>>) -> bool {
    &&& is_strict_prefix(a, p)
    &&& a.len() >= 1
    &&& forall|b: Seq<Seq<char>>|
        (#[trigger] is_prefix(a, b)) && is_strict_prefix(b, p) ==> {
            &&& fs.dir_at(b)
            &&& forall|e: Seq<Seq<char>>|
                (#[trigger] fs.file_at(e)) && !is_prefix(p, e) ==> !is_strict_prefix(b, e)
            &&& forall|e: Seq<Seq<char>>|
                (#[trigger] fs.dir_at(e)) && is_strict_prefix(b, e) && !is_prefix(p, e)
                    ==> is_strict_prefix(e, p)
        }
}

/// On the tree left by removing the subtree at `p`, the upward walk
/// clears exactly the ancestors that `cleared_after_removal` names on
/// the original tree.
pub proof fn lemma_cleared_after_removal(
    fs0: FsModel,
    fs1: FsModel,
    p: Seq<Seq<char>>,
    a: Seq<Seq<char>>,
)
    requires
        forall|q: Seq<Seq<char>>| #[trigger] fs1.dir_at(q) <==> fs0.dir_at(q) && !is_prefix(p, q),
        forall|q: Seq<Seq<char>>| #[trigger] fs1.file_at(q) <==> fs0.file_at(q) && !is_prefix(p, q),
    ensures
        ancestor_cleared(fs1, p, a) == cleared_after_removal(fs0, p, a),
{
    if ancestor_cleared(fs1, p, a) {
        assert forall|b: Seq<Seq<char>>|
            (#[trigger] is_prefix(a, b)) && is_strict_prefix(b, p) implies {
            &&& fs0.dir_at(b)
            &&& forall|e: Seq<Seq<char>>|
                (#[trigger] fs0.file_at(e)) && !is_prefix(p, e) ==> !is_strict_prefix(b, e)
            &&& forall|e: Seq<Seq<char>>|
                (#[trigger] fs0.dir_at(e)) && is_strict_prefix(b, e) && !is_prefix(p, e)
                    ==> is_strict_prefix(e, p)
        } by {
            assert(fs1.dir_at(b) && only_chain_under(fs1, p, b));
            assert(fs0.dir_at(b));
            assert forall|e: Seq<Seq<char>>|
                (#[trigger] fs0.file_at(e)) && !is_prefix(p, e) implies !is_strict_prefix(
                b,
                e,
            ) by {
                assert(fs1.file_at(e));
            }
            assert forall|e: Seq<Seq<char>>|
                (#[trigger] fs0.dir_at(e)) && is_strict_prefix(b, e) && !is_prefix(
                p,
                e,
            ) implies is_strict_prefix(e, p) by {
                assert(fs1.dir_at(e));
            }
        }
        assert(cleared_after_removal(fs0, p, a));
    }
    if cleared_after_removal(fs0, p, a) {
        assert forall|b: Seq<Seq<char>>|
            (#[trigger] is_prefix(a, b)) && is_strict_prefix(b, p) implies fs1.dir_at(b)
            && only_chain_under(fs1, p, b) by {
            assert(fs0.dir_at(b));
            assert(fs1.dir_at(b));
            assert forall|e: Seq<Seq<char>>| #[trigger] fs1.file_at(e) implies !is_strict_prefix(
                b,
                e,
            ) by {
                assert(fs0.file_at(e) && !is_prefix(p, e));
            }
            assert forall|e: Seq<Seq<char>>|
                (#[trigger] fs1.dir_at(e)) && is_strict_prefix(b, e) implies is_strict_prefix(
                e,
                p,
            ) by {
                assert(fs0.dir_at(e) && !is_prefix(p, e));
            }
        }
        assert(ancestor_cleared(fs1, p, a));
    }
}

/// The entries of `v` that a removal of `p` leaves.
fn remove_matching(v: &Vec<Vec<String>>, p: &Vec<String>, whole_tree: bool) -> (r: Vec<
    Vec<String>,
>)
    ensures
        forall|q: Seq<Seq<char>>| #[trigger]
            has_path(r@, q) <==> has_path(v@, q) && !matches_removal(p.deep_view(), q, whole_tree),
{
    let mut kept: Vec<Vec<String>> = Vec::new();
    let mut i: usize = 0;
    while i < v.len()
        invariant
            i <= v.len(),
            forall|q: Seq<Seq<char>>| #[trigger]
                has_path(kept@, q) <==> has_path(v@.subrange(0, i as int), q) && !matches_removal(
                    p.deep_view(),
                    q,
                    whole_tree,
                ),
        decreases v.len() - i,
    {
        let matched = if whole_tree {
            path_is_prefix(p, &v[i])
        } else {
            path_eq(&v[i], p)
        };
        proof {
            assert(matched == matches_removal(p.deep_view(), v@[i as int].deep_view(), whole_tree));
        }
        let ghost kept0 = kept@;
        if !matched {
            let e = clone_path(&v[i]);
            proof {
                assert(e.deep_view() == v@[i as int].deep_view());
            }
            kept.push(e);
            proof {
                assert(kept@ == kept0.push(e));
                assert(kept@[kept0.len() as int].deep_view() == v@[i as int].deep_view());
            }
        }
        proof {
            let pv = p.deep_view();
            let sub0 = v@.subrange(0, i as int);
            let sub1 = v@.subrange(0, i as int + 1);
            assert(sub1 =~= sub0.push(v@[i as int]));
            assert forall|q: Seq<Seq<char>>| #[trigger]
                has_path(kept@, q) <==> has_path(sub1, q) && !matches_removal(
                    pv,
                    q,
                    whole_tree,
                ) by {
                if has_path(kept@, q) {
                    let j = choose|j: int| 0 <= j < kept@.len() && kept@[j].deep_view() == q;
                    if j < kept0.len() {
                        assert(kept@[j] == kept0[j]);
                        assert(has_path(kept0, q));
                        assert(has_path(sub0, q) && !matches_removal(pv, q, whole_tree));
                        let j2 = choose|j2: int| 0 <= j2 < sub0.len() && sub0[j2].deep_view() == q;
                        assert(sub1[j2].deep_view() == q);
                        assert(has_path(sub1, q));
                    } else {
                        assert(!matched);
                        assert(kept@[j].deep_view() == v@[i as int].deep_view());
                        assert(sub1[i as int] == v@[i as int]);
                        assert(has_path(sub1, q));
                        assert(!matches_removal(pv, q, whole_tree));
                    }
                }
                if has_path(sub1, q) && !matches_removal(pv, q, whole_tree) {
                    let j = choose|j: int| 0 <= j < sub1.len() && sub1[j].deep_view() == q;
                    if j < i {
                        assert(sub0[j] == sub1[j]);
                        assert(has_path(sub0, q));
                        assert(has_path(kept0, q));
                        let j2 = choose|j2: int| 0 <= j2 < kept0.len() && kept0[j2].deep_view()
                            == q;
                        assert(kept@[j2] == kept0[j2]);
                        assert(has_path(kept@, q));
                    } else {
                        assert(v@[i as int].deep_view() == q);
                        assert(!matched);
                        assert(kept@[kept0.len() as int].deep_view() == q);
                        assert(has_path(kept@, q));
                    }
                }
            }
        }
        i += 1;
    }
    proof {
        assert(v@.subrange(0, v@.len() as int) =~= v@);
    }
    kept
}

/// The modeled tree: which directories and which files exist.
#[derive(Debug)]
pub struct FsModel {
    pub dirs: Vec<Vec<String>>,
    pub files: Vec<Vec<String>>,
}

impl FsModel {
    /// A directory exists at `p`.
    pub open spec fn dir_at(self, p: Seq<Seq<char>>) -> bool {
        has_path(self.dirs@, p)
    }

    /// A file exists at `p`.
    pub open spec fn file_at(self, p: Seq<Seq<char>>) -> bool {
        has_path(self.files@, p)
    }

    /// Something exists at `p`.
    pub open spec fn entry_at(self, p: Seq<Seq<char>>) -> bool {
        self.dir_at(p) || self.file_at(p)
    }

    /// Nothing lies strictly under `p`.
    pub open spec fn dir_empty(self, p: Seq<Seq<char>>) -> bool {
        forall|q: Seq<Seq<char>>| #[trigger] self.entry_at(q) ==> !is_strict_prefix(p, q)
    }

    /// An empty tree.
    pub fn new() -> (r: FsModel)
        ensures
            forall|q: Seq<Seq<char>>| !r.entry_at(q),
    {
        let r = FsModel { dirs: Vec::new(), files: Vec::new() };
        proof {
            assert(forall|q: Seq<Seq<char>>| !has_path(r.dirs@, q));
            assert(forall|q: Seq<Seq<char>>| !has_path(r.files@, q));
        }
        r
    }

    /// Record a directory at `p`.
    pub fn add_dir(&mut self, p: Vec<String>)
        ensures
            forall|q: Seq<Seq<char>>| #[trigger]
                final(self).dir_at(q) <==> old(self).dir_at(q) || q == p.deep_view(),
            final(self).files == old(self).files,
    {
        let ghost d0 = self.dirs@;
        self.dirs.push(p);
        proof {
            assert forall|q: Seq<Seq<char>>| #[trigger]
                has_path(self.dirs@, q) <==> has_path(d0, q) || q == p.deep_view() by {
                if has_path(self.dirs@, q) {
                    let i = choose|i: int| 0 <= i < self.dirs@.len() && self.dirs@[i].deep_view()
                        == q;
                    if i < d0.len() {
                        assert(d0[i].deep_view() == q);
                    }
                }
                if has_path(d0, q) {
                    let i = choose|i: int| 0 <= i < d0.len() && d0[i].deep_view() == q;
                    assert(self.dirs@[i].deep_view() == q);
                }
                if q == p.deep_view() {
                    assert(self.dirs@[d0.len() as int].deep_view() == q);
                }
            }
        }
    }

    /// Record a file at `p`.
    pub fn add_file(&mut self, p: Vec<String>)
        ensures
            forall|q: Seq<Seq<char>>| #[trigger]
                final(self).file_at(q) <==> old(self).file_at(q) || q == p.deep_view(),
            final(self).dirs == old(self).dirs,
    {
        let ghost f0 = self.files@;
        self.files.push(p);
        proof {
            assert forall|q: Seq<Seq<char>>| #[trigger]
                has_path(self.files@, q) <==> has_path(f0, q) || q == p.deep_view() by {
                if has_path(self.files@, q) {
                    let i = choose|i: int| 0 <= i < self.files@.len() && self.files@[i].deep_view()
                        == q;
                    if i < f0.len() {
                        assert(f0[i].deep_view() == q);
                    }
                }
                if has_path(f0, q) {
                    let i = choose|i: int| 0 <= i < f0.len() && f0[i].deep_view() == q;
                    assert(self.files@[i].deep_view() == q);
                }
                if q == p.deep_view() {
                    assert(self.files@[f0.len() as int].deep_view() == q);
                }
            }
        }
    }

    /// Whether a directory exists at `p`.
    pub fn dir_exists(&self, p: &Vec<String>) -> (r: bool)
        ensures
            r == self.dir_at(p.deep_view()),
    {
        let mut i: usize = 0;
        while i < self.dirs.len()
            invariant
                i <= self.dirs.len(),
                forall|j: int| 0 <= j < i ==> self.dirs@[j].deep_view() != p.deep_view(),
            decreases self.dirs.len() - i,
        {
            if path_eq(&self.dirs[i], p) {
                return true;
            }
            i += 1;
        }
        false
    }

    /// Whether a file exists at `p`.
    pub fn file_exists(&self, p: &Vec<String>) -> (r: bool)
        ensures
            r == self.file_at(p.deep_view()),
    {
        let mut i: usize = 0;
        while i < self.files.len()
            invariant
                i <= self.files.len(),
                forall|j: int| 0 <= j < i ==> self.files@[j].deep_view() != p.deep_view(),
            decreases self.files.len() - i,
        {
            if path_eq(&self.files[i], p) {
                return true;
            }
            i += 1;
        }
        false
    }

    /// Whether anything exists at `p`.
    pub fn entry_exists(&self, p: &Vec<String>) -> (r: bool)
        ensures
            r == self.entry_at(p.deep_view()),
    {
        self.dir_exists(p) || self.file_exists(p)
    }

    /// Whether nothing lies strictly under `p`.
    pub fn dir_is_empty(&self, p: &Vec<String>) -> (r: bool)
        ensures
            r == self.dir_empty(p.deep_view()),
    {
        let mut i: usize = 0;
        while i < self.dirs.len()
            invariant
                i <= self.dirs.len(),
                forall|j: int|
                    0 <= j < i ==> !is_strict_prefix(p.deep_view(), self.dirs@[j].deep_view()),
            decreases self.dirs.len() - i,
        {
            if path_is_prefix(p, &self.dirs[i]) && self.dirs[i].len() > p.len() {
                proof {
                    assert(self.dirs@[i as int].deep_view().len() == self.dirs@[i as int]@.len());
                    assert(p.deep_view().len() == p@.len());
                    assert(self.entry_at(self.dirs@[i as int].deep_view()));
                }
                return false;
            }
            proof {
                assert(self.dirs@[i as int].deep_view().len() == self.dirs@[i as int]@.len());
                assert(p.deep_view().len() == p@.len());
            }
            i += 1;
        }
        let mut j: usize = 0;
        while j < self.files.len()
            invariant
                j <= self.files.len(),
                forall|k: int|
                    0 <= k < self.dirs@.len() ==> !is_strict_prefix(
                        p.deep_view(),
                        self.dirs@[k].deep_view(),
                    ),
                forall|k: int|
                    0 <= k < j ==> !is_strict_prefix(p.deep_view(), self.files@[k].deep_view()),
            decreases self.files.len() - j,
        {
            if path_is_prefix(p, &self.files[j]) && self.files[j].len() > p.len() {
                proof {
                    assert(self.files@[j as int].deep_view().len() == self.files@[j as int]@.len());
                    assert(p.deep_view().len() == p@.len());
                    assert(self.entry_at(self.files@[j as int].deep_view()));
                }
                return false;
            }
            proof {
                assert(self.files@[j as int].deep_view().len() == self.files@[j as int]@.len());
                assert(p.deep_view().len() == p@.len());
            }
            j += 1;
        }
        proof {
            assert forall|q: Seq<Seq<char>>| #[trigger] self.entry_at(q) implies !is_strict_prefix(
                p.deep_view(),
                q,
            ) by {
                if self.dir_at(q) {
                    let i = choose|i: int| 0 <= i < self.dirs@.len() && self.dirs@[i].deep_view()
                        == q;
                    assert(!is_strict_prefix(p.deep_view(), self.dirs@[i].deep_view()));
                } else {
                    let i = choose|i: int| 0 <= i < self.files@.len() && self.files@[i].deep_view()
                        == q;
                    assert(!is_strict_prefix(p.deep_view(), self.files@[i].deep_view()));
                }
            }
        }
        true
    }

    /// Remove the file at `p`, reporting whether one was there.
    pub fn remove_file(&mut self, p: &Vec<String>) -> (r: bool)
        ensures
            r == old(self).file_at(p.deep_view()),
            final(self).dirs == old(self).dirs,
            forall|q: Seq<Seq<char>>| #[trigger]
                final(self).file_at(q) <==> old(self).file_at(q) && q != p.deep_view(),
    {
        let r = self.file_exists(p);
        let nf = remove_matching(&self.files, p, false);
        self.files = nf;
        r
    }

    /// Remove the directory at `p` when it exists and nothing lies
    /// under it; otherwise report failure and leave the tree as it was.
    pub fn remove_dir(&mut self, p: &Vec<String>) -> (r: bool)
        ensures
            r == (old(self).dir_at(p.deep_view()) && old(self).dir_empty(p.deep_view())),
            !r ==> *final(self) == *old(self),
            final(self).files == old(self).files,
            r ==> forall|q: Seq<Seq<char>>| #[trigger]
                final(self).dir_at(q) <==> old(self).dir_at(q) && q != p.deep_view(),
    {
        if self.dir_exists(p) && self.dir_is_empty(p) {
            let nd = remove_matching(&self.dirs, p, false);
            self.dirs = nd;
            true
        } else {
            false
        }
    }

    /// Walk upward from `p`: remove each parent directory in turn as
    /// long as the removal succeeds (the directory exists and is
    /// empty), and stop at the first that fails.  Exactly the cleared
    /// ancestors of `p` disappear; files are never touched.
    pub fn remove_empty_parents(&mut self, p: &Vec<String>)
        requires
            forall|q: Seq<Seq<char>>| #[trigger]
                old(self).entry_at(q) ==> !is_prefix(p.deep_view(), q),
        ensures
            final(self).files == old(self).files,
            forall|q: Seq<Seq<char>>| #[trigger]
                final(self).dir_at(q) <==> old(self).dir_at(q) && !ancestor_cleared(
                    *old(self),
                    p.deep_view(),
                    q,
                ),
    {
        let mut cur = clone_path(p);
        let mut stopped = false;
        proof {
            assert(cur.deep_view().subrange(0, cur.deep_view().len() as int) =~= cur.deep_view());
        }
        while cur.len() > 1 && !stopped
            invariant
                self.files == old(self).files,
                cur@.len() == cur.deep_view().len(),
                is_prefix(cur.deep_view(), p.deep_view()),
                p@.len() >= 1 ==> cur@.len() >= 1,
                forall|q: Seq<Seq<char>>| #[trigger]
                    self.dir_at(q) <==> old(self).dir_at(q) && !(is_prefix(cur.deep_view(), q)
                        && is_strict_prefix(q, p.deep_view())),
                forall|b: Seq<Seq<char>>|
                    (#[trigger] is_prefix(cur.deep_view(), b)) && is_strict_prefix(b, p.deep_view())
                        ==> old(self).dir_at(b) && only_chain_under(*old(self), p.deep_view(), b),
                stopped ==> cur@.len() > 1 && !(old(self).dir_at(cur.deep_view().drop_last())
                    && only_chain_under(*old(self), p.deep_view(), cur.deep_view().drop_last())),
                forall|q: Seq<Seq<char>>| #[trigger]
                    old(self).entry_at(q) ==> !is_prefix(p.deep_view(), q),
            decreases cur.len() + (if stopped { 0int } else { 1int }),
        {
            let ghost pv = p.deep_view();
            let ghost cv = cur.deep_view();
            let ghost fs0 = *old(self);
            let ghost fsc = *self;
            let mut par = clone_path(&cur);
            par.pop();
            let ghost parv = cv.drop_last();
            proof {
                assert(par@ =~= cur@.drop_last());
                assert(par.deep_view() =~= parv);
                assert(cv.subrange(0, parv.len() as int) =~= parv);
                assert(is_prefix(parv, cv));
                lemma_prefix_trans(parv, cv, pv);
                assert(is_strict_prefix(parv, pv));
            }
            let ok = self.remove_dir(&par);
            if ok {
                cur = par;
                proof {
                    // `parv` joins the cleared chain: it existed and
                    // held nothing but the chain.
                    assert(fsc.dir_at(parv));
                    assert(!(is_prefix(cv, parv) && is_strict_prefix(parv, pv)));
                    assert(fs0.dir_at(parv));
                    assert forall|e: Seq<Seq<char>>| #[trigger]
                        fs0.file_at(e) implies !is_strict_prefix(parv, e) by {
                        if is_strict_prefix(parv, e) {
                            assert(fsc.file_at(e));
                            assert(fsc.entry_at(e));
                            assert(!is_strict_prefix(parv, e));
                        }
                    }
                    assert forall|e: Seq<Seq<char>>|
                        (#[trigger] fs0.dir_at(e)) && is_strict_prefix(
                            parv,
                            e,
                        ) implies is_strict_prefix(e, pv) by {
                        if !is_strict_prefix(e, pv) {
                            assert(!(is_prefix(cv, e) && is_strict_prefix(e, pv)));
                            assert(fsc.dir_at(e));
                            assert(fsc.entry_at(e));
                            assert(!is_strict_prefix(parv, e));
                        }
                    }
                    assert(only_chain_under(fs0, pv, parv));
                    // The removed set is now the chain from `parv`.
                    assert forall|q: Seq<Seq<char>>| #[trigger]
                        self.dir_at(q) <==> fs0.dir_at(q) && !(is_prefix(parv, q)
                            && is_strict_prefix(q, pv)) by {
                        if self.dir_at(q) {
                            assert(fsc.dir_at(q) && q != parv);
                            assert(fs0.dir_at(q));
                            if is_prefix(parv, q) && is_strict_prefix(q, pv) {
                                assert(q.len() > parv.len());
                                lemma_prefix_linear(cv, q, pv);
                                assert(is_prefix(cv, q));
                                assert(!self.dir_at(q));
                            }
                        }
                        if fs0.dir_at(q) && !(is_prefix(parv, q) && is_strict_prefix(q, pv)) {
                            if is_prefix(cv, q) && is_strict_prefix(q, pv) {
                                lemma_prefix_trans(parv, cv, q);
                            }
                            assert(fsc.dir_at(q));
                            if q == parv {
                                assert(parv.subrange(0, parv.len() as int) =~= parv);
                                assert(is_prefix(parv, q));
                                assert(is_strict_prefix(q, pv));
                            }
                            assert(self.dir_at(q));
                        }
                    }
                    assert forall|b: Seq<Seq<char>>|
                        (#[trigger] is_prefix(parv, b)) && is_strict_prefix(
                            b,
                            pv,
                        ) implies fs0.dir_at(b) && only_chain_under(fs0, pv, b) by {
                        if b != parv {
                            assert(b.len() > parv.len());
                            lemma_prefix_linear(cv, b, pv);
                            assert(is_prefix(cv, b));
                        }
                    }
                }
            } else {
                stopped = true;
                proof {
                    assert(!(fs0.dir_at(parv) && only_chain_under(fs0, pv, parv))) by {
                        if fs0.dir_at(parv) && only_chain_under(fs0, pv, parv) {
                            assert(!(is_prefix(cv, parv) && is_strict_prefix(parv, pv)));
                            assert(fsc.dir_at(parv));
                            assert forall|e: Seq<Seq<char>>| #[trigger]
                                fsc.entry_at(e) implies !is_strict_prefix(parv, e) by {
                                if is_strict_prefix(parv, e) {
                                    if fsc.file_at(e) {
                                        assert(fs0.file_at(e));
                                        assert(!is_strict_prefix(parv, e));
                                    } else {
                                        assert(fsc.dir_at(e));
                                        assert(fs0.dir_at(e));
                                        assert(is_strict_prefix(e, pv));
                                        assert(e.len() > parv.len());
                                        lemma_prefix_linear(cv, e, pv);
                                        assert(is_prefix(cv, e));
                                        assert(!fsc.dir_at(e));
                                    }
                                }
                            }
                            assert(fsc.dir_empty(parv));
                            assert(ok);
                        }
                    }
                }
            }
        }
        proof {
            let pv = p.deep_view();
            let cvf = cur.deep_view();
            let fs0 = *old(self);
            assert forall|q: Seq<Seq<char>>| #[trigger]
                self.dir_at(q) <==> fs0.dir_at(q) && !ancestor_cleared(fs0, pv, q) by {
                // A path is in the removed chain exactly when the walk
                // cleared it.
                if is_prefix(cvf, q) && is_strict_prefix(q, pv) {
                    // chain members are cleared
                    assert(q.len() >= cvf.len());
                    assert(q.len() >= 1);
                    assert forall|b: Seq<Seq<char>>|
                        (#[trigger] is_prefix(q, b)) && is_strict_prefix(
                            b,
                            pv,
                        ) implies fs0.dir_at(b) && only_chain_under(fs0, pv, b) by {
                        assert(b.len() >= q.len());
                        lemma_prefix_linear(cvf, b, pv);
                    }
                    assert(ancestor_cleared(fs0, pv, q));
                }
                if ancestor_cleared(fs0, pv, q) {
                    // cleared paths are in the chain
                    if !(is_prefix(cvf, q) && is_strict_prefix(q, pv)) {
                        assert(is_strict_prefix(q, pv));
                        if q.len() >= cvf.len() {
                            lemma_prefix_linear(cvf, q, pv);
                            assert(false);
                        } else {
                            // q lies below the stop point; the failed
                            // parent would have had to be cleared too
                            assert(stopped);
                            let parf = cvf.drop_last();
                            assert(cvf.subrange(0, parf.len() as int) =~= parf);
                            assert(is_prefix(parf, cvf));
                            lemma_prefix_trans(parf, cvf, pv);
                            assert(is_strict_prefix(parf, pv));
                            assert(q.len() <= parf.len());
                            lemma_prefix_linear(q, parf, pv);
                            assert(is_prefix(q, parf));
                            assert(fs0.dir_at(parf) && only_chain_under(fs0, pv, parf));
                            assert(false);
                        }
                    }
                }
            }
        }
    }

    /// Remove everything at or under `p`, directories and files alike.
    pub fn remove_tree(&mut self, p: &Vec<String>)
        ensures
            forall|q: Seq<Seq<char>>| #[trigger]
                final(self).dir_at(q) <==> old(self).dir_at(q) && !is_prefix(p.deep_view(), q),
            forall|q: Seq<Seq<char>>| #[trigger]
                final(self).file_at(q) <==> old(self).file_at(q) && !is_prefix(p.deep_view(), q),
    {
        let nd = remove_matching(&self.dirs, p, true);
        self.dirs = nd;
        let nf = remove_matching(&self.files, p, true);
        self.files = nf;
    }
}

} // verus!
