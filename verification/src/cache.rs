//! The shared version cache: per-repository environment records behind
//! an exclusive-access transaction primitive.  All mutation goes through
//! `Cache::exclusive`, which applies one `CacheMutation` as a single
//! read-modify-write step, so that independent callers, serialized by
//! the surrounding lock, never lose one another's updates.
//!
//! The store itself is an in-memory snapshot; the caller that owns the
//! on-disk copy loads it, runs transactions here, and persists the
//! result while holding the lock.

use vstd::prelude::*;
use crate::kv::{
    assoc_get, has_key, key_index, keys_distinct, find_key, lemma_assoc_get, lemma_assoc_push,
    lemma_assoc_update, lemma_key_index, lemma_key_index_props,
};

verus! {

/// One installed-version record: which tool, at which version.
#[derive(Debug, Clone)]
pub struct UpVersion {
    pub tool: String,
    pub version: String,
}

/// The per-repository environment record: environment variables plus the
/// ordered list of installed tool versions.
#[derive(Debug, Clone)]
pub struct UpEnvironment {
    pub env_vars: Vec<(String, String)>,
    pub versions: Vec<UpVersion>,
}

/// `vs` holds a `(tool, version)` record.
pub open spec fn spec_has_version(vs: Seq<UpVersion>, tool: Seq<char>, version: Seq<char>) -> bool {
    exists|i: int| 0 <= i < vs.len() && vs[i].tool@ == tool && vs[i].version@ == version
}

/// The environment-variable list `newv` is `oldv` with `k` bound to
/// `val` and every other key untouched.
pub open spec fn env_vars_set_post(
    oldv: Seq<(String, String)>,
    newv: Seq<(String, String)>,
    k: Seq<char>,
    val: Seq<char>,
) -> bool {
    &&& forall|k2: Seq<char>| #[trigger] has_key(newv, k2) <==> has_key(oldv, k2) || k2 == k
    &&& forall|k2: Seq<char>|
        has_key(oldv, k2) && k2 != k ==> #[trigger] assoc_get(newv, k2) == assoc_get(oldv, k2)
    &&& has_key(newv, k)
    &&& assoc_get(newv, k)@ == val
}

impl UpEnvironment {
    /// Environment-variable keys are unique.
    pub open spec fn wf(self) -> bool {
        keys_distinct(self.env_vars@)
    }

    /// A fresh, empty record: what an absent repository entry stands for.
    pub fn new() -> (r: UpEnvironment)
        ensures
            r.env_vars@ =~= Seq::<(String, String)>::empty(),
            r.versions@ =~= Seq::<UpVersion>::empty(),
            r.wf(),
    {
        UpEnvironment { env_vars: Vec::new(), versions: Vec::new() }
    }

    /// Bind `key` to `value`, replacing an existing binding and leaving
    /// every other binding and the version list untouched.
    pub fn set_env_var(&mut self, key: String, value: String)
        requires
            old(self).wf(),
        ensures
            final(self).wf(),
            env_vars_set_post(old(self).env_vars@, final(self).env_vars@, key@, value@),
            final(self).versions == old(self).versions,
    {
        match find_key(&self.env_vars, &key) {
            Some(i) => {
                let mut pair = self.env_vars.remove(i);
                pair.1 = value;
                let ghost newpair = pair;
                self.env_vars.insert(i, pair);
                proof {
                    assert(self.env_vars@ =~= old(self).env_vars@.update(i as int, newpair));
                    lemma_assoc_update(old(self).env_vars@, i as int, newpair.1);
                }
            },
            None => {
                let ghost v0 = self.env_vars@;
                let ghost p = (key, value);
                self.env_vars.push((key, value));
                proof {
                    lemma_assoc_push(v0, p);
                }
            },
        }
    }

    /// Whether a `(tool, version)` record is already present.
    pub fn has_version(&self, tool: &String, version: &String) -> (r: bool)
        ensures
            r == spec_has_version(self.versions@, tool@, version@),
    {
        let mut i: usize = 0;
        while i < self.versions.len()
            invariant
                i <= self.versions.len(),
                forall|j: int|
                    0 <= j < i ==> !(self.versions@[j].tool@ == tool@ && self.versions@[j].version@
                        == version@),
            decreases self.versions.len() - i,
        {
            if self.versions[i].tool.eq(tool) && self.versions[i].version.eq(version) {
                return true;
            }
            i += 1;
        }
        false
    }

    /// Append a `(tool, version)` record, leaving everything else as it
    /// was.
    pub fn push_version(&mut self, tool: String, version: String)
        ensures
            final(self).env_vars == old(self).env_vars,
            final(self).versions@.len() == old(self).versions@.len() + 1,
            forall|i: int|
                0 <= i < old(self).versions@.len() ==> final(self).versions@[i] == old(
                    self,
                ).versions@[i],
            final(self).versions@.last().tool@ == tool@,
            final(self).versions@.last().version@ == version@,
            old(self).wf() ==> final(self).wf(),
    {
        self.versions.push(UpVersion { tool, version });
    }

    /// Merge one venv result into this record: bind `VIRTUAL_ENV` and
    /// the internal venv-path variable, and append the
    /// `("python-venv", version)` record.
    pub fn merge_venv(&mut self, version: String, venv_name: String, venv_path: String)
        requires
            old(self).wf(),
        ensures
            final(self).wf(),
            merge_venv_record_post(*old(self), *final(self), version@, venv_name@, venv_path@),
    {
        proof {
            reveal_strlit("VIRTUAL_ENV");
            reveal_strlit("__omni_python_venv_path");
            assert("VIRTUAL_ENV"@.len() == 11);
            assert("__omni_python_venv_path"@.len() == 23);
        }
        let ghost v0 = self.env_vars@;
        self.set_env_var("VIRTUAL_ENV".to_owned(), venv_name);
        let ghost v1 = self.env_vars@;
        self.set_env_var("__omni_python_venv_path".to_owned(), venv_path);
        let ghost v2 = self.env_vars@;
        self.push_version("python-venv".to_owned(), version);
        proof {
            let k1 = "VIRTUAL_ENV"@;
            let k2 = "__omni_python_venv_path"@;
            assert forall|k: Seq<char>| #[trigger] has_key(v2, k) <==> has_key(v0, k) || k == k1
                || k == k2 by {
            }
            assert forall|k: Seq<char>| has_key(v0, k) && k != k1 && k != k2 implies #[trigger] assoc_get(
                v2,
                k,
            ) == assoc_get(v0, k) by {
                assert(has_key(v1, k));
                assert(assoc_get(v1, k) == assoc_get(v0, k));
            }
            assert(has_key(v1, k1));
            assert(assoc_get(v2, k1) == assoc_get(v1, k1));
        }
    }
}

/// The record `n` is `o` with one venv result merged in: `VIRTUAL_ENV`
/// and the internal venv-path variable bound, every other variable
/// untouched, and exactly one `("python-venv", version)` record
/// appended.
pub open spec fn merge_venv_record_post(
    o: UpEnvironment,
    n: UpEnvironment,
    version: Seq<char>,
    venv_name: Seq<char>,
    venv_path: Seq<char>,
) -> bool {
    &&& forall|k: Seq<char>| #[trigger]
        has_key(n.env_vars@, k) <==> has_key(o.env_vars@, k) || k == "VIRTUAL_ENV"@ || k
            == "__omni_python_venv_path"@
    &&& forall|k: Seq<char>|
        has_key(o.env_vars@, k) && k != "VIRTUAL_ENV"@ && k != "__omni_python_venv_path"@
            ==> #[trigger] assoc_get(n.env_vars@, k) == assoc_get(o.env_vars@, k)
    &&& has_key(n.env_vars@, "VIRTUAL_ENV"@)
    &&& assoc_get(n.env_vars@, "VIRTUAL_ENV"@)@ == venv_name
    &&& has_key(n.env_vars@, "__omni_python_venv_path"@)
    &&& assoc_get(n.env_vars@, "__omni_python_venv_path"@)@ == venv_path
    &&& n.versions@.len() == o.versions@.len() + 1
    &&& forall|i: int| 0 <= i < o.versions@.len() ==> n.versions@[i] == o.versions@[i]
    &&& n.versions@.last().tool@ == "python-venv"@
    &&& n.versions@.last().version@ == version
}

/// The whole shared snapshot: one record per repository id, plus the
/// time of the last successful mutation.
#[derive(Debug)]
pub struct Cache {
    pub env: Vec<(String, UpEnvironment)>,
    pub updated_at: i64,
}

/// The single mutation step a transaction applies.  A `repo_id` of
/// `None` means the caller is not inside a recognized repository: the
/// mutation is skipped and the snapshot left as it was.
#[derive(Debug)]
pub enum CacheMutation {
    /// Bind one environment variable for a repository (what the bundler
    /// tool records after a successful install).
    SetEnvVar { repo_id: Option<String>, key: String, value: String },
    /// Merge one venv result for a repository, unless that exact
    /// `("python-venv", version)` pair is already recorded.
    MergeVenv { repo_id: Option<String>, version: String, venv_name: String, venv_path: String },
    /// Store a whole record under a repository id, replacing any
    /// previous one.
    PutRecord { repo_id: String, record: UpEnvironment },
}

/// The record stored under `rid`, or the empty record when none is.
pub open spec fn record_vars_before(c: Cache, rid: Seq<char>) -> Seq<(String, String)> {
    if has_key(c.env@, rid) {
        assoc_get(c.env@, rid).env_vars@
    } else {
        Seq::empty()
    }
}

/// The version list stored under `rid`, or the empty list when none is.
pub open spec fn record_versions_before(c: Cache, rid: Seq<char>) -> Seq<UpVersion> {
    if has_key(c.env@, rid) {
        assoc_get(c.env@, rid).versions@
    } else {
        Seq::empty()
    }
}

/// The snapshot `n` differs from `o` at most in the record under `rid`:
/// exactly the old repository ids plus `rid` are present, and every
/// other record is untouched.
pub open spec fn entries_except(
    o: Seq<(String, UpEnvironment)>,
    n: Seq<(String, UpEnvironment)>,
    rid: Seq<char>,
) -> bool {
    &&& forall|k: Seq<char>| #[trigger] has_key(n, k) <==> has_key(o, k) || k == rid
    &&& forall|k: Seq<char>|
        has_key(o, k) && k != rid ==> #[trigger] assoc_get(n, k) == assoc_get(o, k)
}

/// A `("python-venv", version)` record already stands under `rid`.
pub open spec fn venv_recorded(c: Cache, rid: Seq<char>, version: Seq<char>) -> bool {
    has_key(c.env@, rid) && spec_has_version(
        assoc_get(c.env@, rid).versions@,
        "python-venv"@,
        version,
    )
}

/// What one transaction promises: `changed` reports whether anything
/// was written; a change refreshes `updated_at` to `now`; no change
/// leaves the snapshot exactly as it was; and the written record is
/// pinned per mutation kind.
pub open spec fn exclusive_post(
    old_c: Cache,
    new_c: Cache,
    m: CacheMutation,
    now: i64,
    changed: bool,
) -> bool {
    &&& (changed ==> new_c.updated_at == now)
    &&& (!changed ==> new_c == old_c)
    &&& match m {
        CacheMutation::SetEnvVar { repo_id, key, value } => match repo_id {
            None => !changed,
            Some(rid) => {
                &&& changed
                &&& entries_except(old_c.env@, new_c.env@, rid@)
                &&& has_key(new_c.env@, rid@)
                &&& env_vars_set_post(
                    record_vars_before(old_c, rid@),
                    assoc_get(new_c.env@, rid@).env_vars@,
                    key@,
                    value@,
                )
                &&& assoc_get(new_c.env@, rid@).versions@ == record_versions_before(old_c, rid@)
            },
        },
        CacheMutation::MergeVenv { repo_id, version, venv_name, venv_path } => match repo_id {
            None => !changed,
            Some(rid) => {
                &&& changed == !venv_recorded(old_c, rid@, version@)
                &&& (changed ==> {
                    &&& entries_except(old_c.env@, new_c.env@, rid@)
                    &&& has_key(new_c.env@, rid@)
                    &&& merge_venv_cache_post(old_c, new_c, rid@, version@, venv_name@, venv_path@)
                })
            },
        },
        CacheMutation::PutRecord { repo_id, record } => {
            &&& changed
            &&& entries_except(old_c.env@, new_c.env@, repo_id@)
            &&& has_key(new_c.env@, repo_id@)
            &&& assoc_get(new_c.env@, repo_id@) == record
        },
    }
}

/// The record under `rid` in `new_c` is the old one (or the empty
/// record) with the venv result merged in.
pub open spec fn merge_venv_cache_post(
    old_c: Cache,
    new_c: Cache,
    rid: Seq<char>,
    version: Seq<char>,
    venv_name: Seq<char>,
    venv_path: Seq<char>,
) -> bool {
    let n = assoc_get(new_c.env@, rid);
    &&& forall|k: Seq<char>| #[trigger]
        has_key(n.env_vars@, k) <==> has_key(record_vars_before(old_c, rid), k) || k
            == "VIRTUAL_ENV"@ || k == "__omni_python_venv_path"@
    &&& forall|k: Seq<char>|
        has_key(record_vars_before(old_c, rid), k) && k != "VIRTUAL_ENV"@ && k
            != "__omni_python_venv_path"@ ==> #[trigger] assoc_get(n.env_vars@, k) == assoc_get(
            record_vars_before(old_c, rid),
            k,
        )
    &&& has_key(n.env_vars@, "VIRTUAL_ENV"@)
    &&& assoc_get(n.env_vars@, "VIRTUAL_ENV"@)@ == venv_name
    &&& has_key(n.env_vars@, "__omni_python_venv_path"@)
    &&& assoc_get(n.env_vars@, "__omni_python_venv_path"@)@ == venv_path
    &&& n.versions@.len() == record_versions_before(old_c, rid).len() + 1
    &&& forall|i: int|
        0 <= i < record_versions_before(old_c, rid).len() ==> n.versions@[i]
            == record_versions_before(old_c, rid)[i]
    &&& n.versions@.last().tool@ == "python-venv"@
    &&& n.versions@.last().version@ == version
}

impl Cache {
    /// Repository ids are unique and every record is well formed.
    pub open spec fn wf(self) -> bool {
        &&& keys_distinct(self.env@)
        &&& forall|i: int| 0 <= i < self.env@.len() ==> (#[trigger] self.env@[i].1).wf()
    }

    /// An empty snapshot.
    pub fn new() -> (r: Cache)
        ensures
            r.env@ =~= Seq::<(String, UpEnvironment)>::empty(),
            r.updated_at == 0,
            r.wf(),
    {
        Cache { env: Vec::new(), updated_at: 0 }
    }

    /// The record stored under `repo_id`, when one is.
    pub fn get_env(&self, repo_id: &String) -> (r: Option<&UpEnvironment>)
        requires
            self.wf(),
        ensures
            match r {
                Some(rec) => has_key(self.env@, repo_id@) && *rec == assoc_get(
                    self.env@,
                    repo_id@,
                ),
                None => !has_key(self.env@, repo_id@),
            },
    {
        match find_key(&self.env, repo_id) {
            Some(i) => Some(&self.env[i].1),
            None => None,
        }
    }

    /// Index of the record under `rid`, inserting a fresh empty record
    /// when none is there yet.  Every other record is untouched.
    fn ensure_entry(&mut self, rid: &String) -> (i: usize)
        requires
            old(self).wf(),
        ensures
            final(self).wf(),
            i < final(self).env.len(),
            final(self).env@[i as int].0@ == rid@,
            key_index(final(self).env@, rid@) == i,
            has_key(final(self).env@, rid@),
            entries_except(old(self).env@, final(self).env@, rid@),
            final(self).env@[i as int].1.env_vars@ == record_vars_before(*old(self), rid@),
            final(self).env@[i as int].1.versions@ == record_versions_before(*old(self), rid@),
            final(self).updated_at == old(self).updated_at,
    {
        match find_key(&self.env, rid) {
            Some(i) => {
                proof {
                    lemma_assoc_get(self.env@, rid@, i as int);
                    assert forall|k: Seq<char>| #[trigger]
                        has_key(self.env@, k) <==> has_key(self.env@, k) || k == rid@ by {}
                }
                i
            },
            None => {
                let i = self.env.len();
                let ghost e0 = self.env@;
                let fresh = UpEnvironment::new();
                self.env.push((rid.clone(), fresh));
                proof {
                    assert(self.env@ =~= e0.push(self.env@[i as int]));
                    lemma_assoc_push(e0, self.env@[i as int]);
                    lemma_key_index(self.env@, rid@, i as int);
                }
                i
            },
        }
    }

    /// The exclusive-access transaction: applies one mutation as a
    /// single read-modify-write step and reports whether anything was
    /// written.  The caller holds the cross-process lock around this
    /// call; within it, the mutation looks up and inserts or updates,
    /// never blindly overwrites another repository's record.
    pub fn exclusive(&mut self, m: CacheMutation, now: i64) -> (changed: bool)
        requires
            old(self).wf(),
            mutation_wf(m),
        ensures
            final(self).wf(),
            exclusive_post(*old(self), *final(self), m, now, changed),
    {
        match m {
            CacheMutation::SetEnvVar { repo_id, key, value } => match repo_id {
                None => false,
                Some(rid) => {
                    let i = self.ensure_entry(&rid);
                    let ghost c1 = *self;
                    let mut pair = self.env.remove(i);
                    proof {
                        lemma_key_index_props(c1.env@, rid@);
                        assert((c1.env@[i as int].1).wf());
                    }
                    pair.1.set_env_var(key, value);
                    let ghost newpair = pair;
                    self.env.insert(i, pair);
                    self.updated_at = now;
                    proof {
                        assert(self.env@ =~= c1.env@.update(i as int, newpair));
                        lemma_assoc_update(c1.env@, i as int, newpair.1);
                        assert forall|j: int| 0 <= j < self.env@.len() implies (
                        #[trigger] self.env@[j].1).wf() by {
                            if j != i {
                                assert(self.env@[j].1 == c1.env@[j].1);
                                assert((c1.env@[j].1).wf());
                            }
                        }
                    }
                    true
                },
            },
            CacheMutation::MergeVenv { repo_id, version, venv_name, venv_path } => match repo_id {
                None => false,
                Some(rid) => {
                    let tool = "python-venv".to_owned();
                    let already = match find_key(&self.env, &rid) {
                        Some(i) => {
                            proof {
                                lemma_assoc_get(self.env@, rid@, i as int);
                            }
                            self.env[i].1.has_version(&tool, &version)
                        },
                        None => false,
                    };
                    if already {
                        false
                    } else {
                        let i = self.ensure_entry(&rid);
                        let ghost c1 = *self;
                        let mut pair = self.env.remove(i);
                        proof {
                            lemma_key_index_props(c1.env@, rid@);
                            assert((c1.env@[i as int].1).wf());
                        }
                        pair.1.merge_venv(version, venv_name, venv_path);
                        let ghost newpair = pair;
                        self.env.insert(i, pair);
                        self.updated_at = now;
                        proof {
                            assert(self.env@ =~= c1.env@.update(i as int, newpair));
                            lemma_assoc_update(c1.env@, i as int, newpair.1);
                            assert forall|j: int| 0 <= j < self.env@.len() implies (
                            #[trigger] self.env@[j].1).wf() by {
                                if j != i {
                                    assert(self.env@[j].1 == c1.env@[j].1);
                                    assert((c1.env@[j].1).wf());
                                }
                            }
                        }
                        true
                    }
                },
            },
            CacheMutation::PutRecord { repo_id, record } => {
                match find_key(&self.env, &repo_id) {
                    Some(i) => {
                        let ghost c1 = *self;
                        let mut pair = self.env.remove(i);
                        pair.1 = record;
                        let ghost newpair = pair;
                        self.env.insert(i, pair);
                        proof {
                            assert(self.env@ =~= c1.env@.update(i as int, newpair));
                            lemma_assoc_update(c1.env@, i as int, newpair.1);
                            assert forall|j: int| 0 <= j < self.env@.len() implies (
                            #[trigger] self.env@[j].1).wf() by {
                                if j != i {
                                    assert(self.env@[j].1 == c1.env@[j].1);
                                    assert((c1.env@[j].1).wf());
                                }
                            }
                        }
                    },
                    None => {
                        let ghost e0 = self.env@;
                        let ghost n0 = e0.len() as int;
                        self.env.push((repo_id, record));
                        proof {
                            assert(self.env@ =~= e0.push(self.env@[n0]));
                            lemma_assoc_push(e0, self.env@[n0]);
                            assert forall|j: int| 0 <= j < self.env@.len() implies (
                            #[trigger] self.env@[j].1).wf() by {
                                if j < n0 {
                                    assert(self.env@[j].1 == e0[j].1);
                                    assert((e0[j].1).wf());
                                }
                            }
                        }
                    },
                }
                self.updated_at = now;
                true
            },
        }
    }
}

/// What a transaction may assume of its mutation: a stored record has
/// unique environment-variable keys.
pub open spec fn mutation_wf(m: CacheMutation) -> bool {
    match m {
        CacheMutation::PutRecord { repo_id, record } => record.wf(),
        _ => true,
    }
}

/// The repository id a mutation addresses, when it addresses one.
pub open spec fn mutation_repo_id(m: CacheMutation) -> Option<Seq<char>> {
    match m {
        CacheMutation::SetEnvVar { repo_id, key, value } => match repo_id {
            None => None,
            Some(r) => Some(r@),
        },
        CacheMutation::MergeVenv { repo_id, version, venv_name, venv_path } => match repo_id {
            None => None,
            Some(r) => Some(r@),
        },
        CacheMutation::PutRecord { repo_id, record } => Some(repo_id@),
    }
}

/// Law: a record written under a repository id is read back unchanged,
/// whether at once or after a later transaction that addresses a
/// different repository (two independent exclusive-access calls stand
/// for two processes sharing the store).
pub proof fn lemma_cache_round_trip(
    c0: Cache,
    c1: Cache,
    c2: Cache,
    rid: String,
    rec: UpEnvironment,
    m2: CacheMutation,
    now1: i64,
    now2: i64,
    ch1: bool,
    ch2: bool,
)
    requires
        exclusive_post(c0, c1, CacheMutation::PutRecord { repo_id: rid, record: rec }, now1, ch1),
        exclusive_post(c1, c2, m2, now2, ch2),
        mutation_repo_id(m2) != Some(rid@),
    ensures
        has_key(c2.env@, rid@),
        assoc_get(c2.env@, rid@) == rec,
{
    if ch2 {
        match m2 {
            CacheMutation::SetEnvVar { repo_id, key, value } => {},
            CacheMutation::MergeVenv { repo_id, version, venv_name, venv_path } => {},
            CacheMutation::PutRecord { repo_id, record } => {},
        }
    }
}

/// Law: two transactions that store records under different repository
/// ids both take effect; the later one does not lose the earlier
/// update.
pub proof fn lemma_cache_no_lost_update(
    c0: Cache,
    c1: Cache,
    c2: Cache,
    rid_a: String,
    rec_a: UpEnvironment,
    rid_b: String,
    rec_b: UpEnvironment,
    now1: i64,
    now2: i64,
    ch1: bool,
    ch2: bool,
)
    requires
        rid_a@ != rid_b@,
        exclusive_post(
            c0,
            c1,
            CacheMutation::PutRecord { repo_id: rid_a, record: rec_a },
            now1,
            ch1,
        ),
        exclusive_post(
            c1,
            c2,
            CacheMutation::PutRecord { repo_id: rid_b, record: rec_b },
            now2,
            ch2,
        ),
    ensures
        has_key(c2.env@, rid_a@),
        assoc_get(c2.env@, rid_a@) == rec_a,
        has_key(c2.env@, rid_b@),
        assoc_get(c2.env@, rid_b@) == rec_b,
{
}

/// Law: merging the venv result for one version is idempotent.  The
/// first merge records the version (appending exactly one record when
/// it was not recorded before); a second merge with the same version
/// reports no change and leaves the snapshot exactly as it was.
pub proof fn lemma_venv_merge_idempotent(
    c0: Cache,
    c1: Cache,
    c2: Cache,
    rid1: String,
    rid2: String,
    ver1: String,
    ver2: String,
    name1: String,
    name2: String,
    path1: String,
    path2: String,
    now1: i64,
    now2: i64,
    ch1: bool,
    ch2: bool,
)
    requires
        rid1@ == rid2@,
        ver1@ == ver2@,
        exclusive_post(
            c0,
            c1,
            CacheMutation::MergeVenv {
                repo_id: Some(rid1),
                version: ver1,
                venv_name: name1,
                venv_path: path1,
            },
            now1,
            ch1,
        ),
        exclusive_post(
            c1,
            c2,
            CacheMutation::MergeVenv {
                repo_id: Some(rid2),
                version: ver2,
                venv_name: name2,
                venv_path: path2,
            },
            now2,
            ch2,
        ),
    ensures
        venv_recorded(c1, rid1@, ver1@),
        ch1 == !venv_recorded(c0, rid1@, ver1@),
        ch1 ==> assoc_get(c1.env@, rid1@).versions@.len() == record_versions_before(
            c0,
            rid1@,
        ).len() + 1,
        ch2 == false,
        c2 == c1,
{
    if ch1 {
        let n = assoc_get(c1.env@, rid1@);
        assert(n.versions@.last().tool@ == "python-venv"@);
        assert(n.versions@.last().version@ == ver1@);
        assert(spec_has_version(n.versions@, "python-venv"@, ver1@));
    }
}

} // verus!
