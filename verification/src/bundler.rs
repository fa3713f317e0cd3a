//! The bundler tool: installs Gemfile dependencies through the
//! external dependency manager, records the gemfile's absolute path in
//! the shared cache, and tears the install directory down again.

use vstd::prelude::*;
use crate::cache::{
    Cache, CacheMutation, entries_except, env_vars_set_post, record_vars_before,
    record_versions_before,
};
use crate::config::ConfigValue;
use crate::fsmodel::{FsModel, ancestor_cleared, cleared_after_removal, is_prefix,
    lemma_cleared_after_removal};
use crate::kv::{assoc_get, has_key};
use crate::paths::{resolve_path, spec_resolve};
use crate::run::{outcome_at, outcome_msg, outcome_ok, now_unix, CmdSpec, RunOutcome, UpError};

verus! {

/// The view of an optional string.
pub open spec fn opt_str_view(o: Option<String>) -> Option<Seq<char>> {
    match o {
        Some(s) => Some(s@),
        None => None,
    }
}

/// The bundler tool's settings: which gemfile to install from, and
/// where to install to.
#[derive(Debug, Clone)]
pub struct UpConfigBundler {
    pub gemfile: Option<String>,
    pub path: Option<String>,
}

/// The gemfile the configuration names: a bare string value names it
/// directly, a table names it under `gemfile`; anything else leaves it
/// unset.
pub open spec fn spec_bundler_gemfile(cv: Option<&ConfigValue>) -> Option<Seq<char>> {
    match cv {
        None => None,
        Some(v) => match v {
            ConfigValue::Str(s) => Some(s@),
            ConfigValue::Table(_) => match v.spec_get("gemfile"@) {
                Some(g) => match g {
                    ConfigValue::Str(s) => Some(s@),
                    _ => None,
                },
                None => None,
            },
            _ => None,
        },
    }
}

/// The install path the configuration names under `path`, with its
/// documented default.
pub open spec fn spec_bundler_path(cv: Option<&ConfigValue>) -> Seq<char> {
    match cv {
        Some(v) => match v {
            ConfigValue::Table(_) => match v.spec_get("path"@) {
                Some(g) => match g {
                    ConfigValue::Str(s) => s@,
                    _ => "vendor/bundle"@,
                },
                None => "vendor/bundle"@,
            },
            _ => "vendor/bundle"@,
        },
        None => "vendor/bundle"@,
    }
}

/// What the bundler tool reports after a teardown.
#[derive(Debug)]
pub enum DownOutcome {
    /// The install path was not there: nothing to do.
    NothingToDo,
    /// The install path was removed, together with the parent
    /// directories the removal left empty.
    Removed,
}

impl DownOutcome {
    /// The progress message the outcome carries.
    pub fn message(&self) -> (r: String)
        ensures
            r@ == match self {
                DownOutcome::NothingToDo => "skipping (nothing to do)"@,
                DownOutcome::Removed => "removed"@,
            },
    {
        match self {
            DownOutcome::NothingToDo => "skipping (nothing to do)".to_owned(),
            DownOutcome::Removed => "removed".to_owned(),
        }
    }
}

/// The cache after the bundler merged its result: no repository id
/// means no change; otherwise the repository's record binds
/// `BUNDLE_GEMFILE` to the gemfile's absolute path and is otherwise
/// untouched, as is every other record.
pub open spec fn bundler_cache_updated(
    cfg: UpConfigBundler,
    old_c: Cache,
    new_c: Cache,
    rid: Option<Seq<char>>,
    root: Seq<char>,
) -> bool {
    match rid {
        None => new_c == old_c,
        Some(r) => {
            &&& entries_except(old_c.env@, new_c.env@, r)
            &&& has_key(new_c.env@, r)
            &&& env_vars_set_post(
                record_vars_before(old_c, r),
                assoc_get(new_c.env@, r).env_vars@,
                "BUNDLE_GEMFILE"@,
                cfg.spec_gemfile_abs(root),
            )
            &&& assoc_get(new_c.env@, r).versions@ == record_versions_before(old_c, r)
        },
    }
}

impl UpConfigBundler {
    /// Parse the tool's settings out of the configuration value.
    /// Parsing never fails: missing or malformed fields take their
    /// documented defaults.
    pub fn from_config_value(config_value: Option<&ConfigValue>) -> (r: Self)
        ensures
            opt_str_view(r.gemfile) == spec_bundler_gemfile(config_value),
            r.path matches Some(p) && p@ == spec_bundler_path(config_value),
    {
        let mut gemfile: Option<String> = None;
        let mut path: Option<String> = Some("vendor/bundle".to_owned());
        if let Some(cv) = config_value {
            match cv.as_table() {
                Some(_) => {
                    if let Some(value) = cv.get(&"gemfile".to_owned()) {
                        if let Some(s) = value.as_str() {
                            gemfile = Some(s.clone());
                        }
                    }
                    if let Some(value) = cv.get(&"path".to_owned()) {
                        if let Some(s) = value.as_str() {
                            path = Some(s.clone());
                        }
                    }
                },
                None => {
                    if let Some(s) = cv.as_str() {
                        gemfile = Some(s.clone());
                    }
                },
            }
        }
        UpConfigBundler { gemfile, path }
    }

    /// The gemfile the tool works on: the configured one, or `Gemfile`.
    pub open spec fn spec_gemfile(self) -> Seq<char> {
        match self.gemfile {
            Some(g) => g@,
            None => "Gemfile"@,
        }
    }

    /// That gemfile as an absolute path: taken as it stands when
    /// already absolute, placed under the working directory otherwise.
    pub open spec fn spec_gemfile_abs(self, root: Seq<char>) -> Seq<char> {
        let g = self.spec_gemfile();
        if g.len() > 0 && g[0] == '/' {
            g
        } else {
            root + "/"@ + g
        }
    }

    /// The absolute path of the gemfile, resolved against the working
    /// directory root.
    pub fn gemfile_abs_path(&self, workdir_root: &String) -> (r: String)
        ensures
            r@ == self.spec_gemfile_abs(workdir_root@),
    {
        let g: String = match &self.gemfile {
            Some(g) => g.clone(),
            None => "Gemfile".to_owned(),
        };
        let st = g.as_str();
        if st.unicode_len() > 0 && st.get_char(0) == '/' {
            g
        } else {
            let r = workdir_root.clone().concat("/").concat(g.as_str());
            proof {
                assert(r@ == workdir_root@ + "/"@ + g@);
            }
            r
        }
    }

    /// How many commands an install issues: a path-configuration step
    /// when an install path is set, then the install itself.
    pub open spec fn spec_cmd_count(self) -> int {
        if self.path is Some {
            2
        } else {
            1
        }
    }

    /// The arguments of the install command.
    pub open spec fn spec_install_args(self) -> Seq<Seq<char>> {
        match self.gemfile {
            Some(g) => seq!["install"@, "--gemfile"@, g@],
            None => seq!["install"@],
        }
    }

    /// The commands an install issues, in order: `bundle config --local
    /// path <path>` when a path is configured, then `bundle install`,
    /// scoped to the configured gemfile when one is set.
    pub fn up_commands(&self) -> (r: Vec<CmdSpec>)
        ensures
            r@.len() == self.spec_cmd_count(),
            self.path matches Some(p) ==> r@[0].program@ == "bundle"@ && r@[0].args.deep_view()
                == seq!["config"@, "--local"@, "path"@, p@],
            r@.last().program@ == "bundle"@,
            r@.last().args.deep_view() == self.spec_install_args(),
    {
        let mut cmds: Vec<CmdSpec> = Vec::new();
        if let Some(p) = &self.path {
            let mut args: Vec<String> = Vec::new();
            args.push("config".to_owned());
            args.push("--local".to_owned());
            args.push("path".to_owned());
            args.push(p.clone());
            proof {
                assert(args.deep_view() =~= seq!["config"@, "--local"@, "path"@, p@]);
            }
            cmds.push(CmdSpec { program: "bundle".to_owned(), args });
        }
        let mut iargs: Vec<String> = Vec::new();
        iargs.push("install".to_owned());
        if let Some(g) = &self.gemfile {
            iargs.push("--gemfile".to_owned());
            iargs.push(g.clone());
        }
        proof {
            assert(iargs.deep_view() =~= self.spec_install_args());
        }
        cmds.push(CmdSpec { program: "bundle".to_owned(), args: iargs });
        cmds
    }

    /// Merge the install's result into the shared cache: bind
    /// `BUNDLE_GEMFILE` for the repository, when the caller is inside
    /// one.  Reports whether the cache changed.
    pub fn update_cache(&self, cache: &mut Cache, repo_id: Option<String>, workdir_root: &String)
        -> (r: bool)
        requires
            old(cache).wf(),
        ensures
            final(cache).wf(),
            r == (repo_id is Some),
            bundler_cache_updated(
                *self,
                *old(cache),
                *final(cache),
                opt_str_view(repo_id),
                workdir_root@,
            ),
    {
        let value = self.gemfile_abs_path(workdir_root);
        let now = now_unix();
        let m = CacheMutation::SetEnvVar { repo_id, key: "BUNDLE_GEMFILE".to_owned(), value };
        let changed = cache.exclusive(m, now);
        changed
    }

    /// Install: run the configured commands in order, and merge into
    /// the cache only after every one succeeded.  The first failing
    /// command aborts with its detail and leaves the cache untouched.
    pub fn up(
        &self,
        outcomes: &Vec<RunOutcome>,
        cache: &mut Cache,
        repo_id: Option<String>,
        workdir_root: &String,
    ) -> (r: Result<(), UpError>)
        requires
            old(cache).wf(),
        ensures
            final(cache).wf(),
            ({
                let os = outcomes@;
                let install = if self.path is Some {
                    1int
                } else {
                    0int
                };
                if self.path is Some && !outcome_ok(os, 0) {
                    &&& r matches Err(UpError::Exec(m)) && m@ == outcome_msg(os, 0)
                    &&& *final(cache) == *old(cache)
                } else if !outcome_ok(os, install) {
                    &&& r matches Err(UpError::Exec(m)) && m@ == outcome_msg(os, install)
                    &&& *final(cache) == *old(cache)
                } else {
                    &&& r is Ok
                    &&& bundler_cache_updated(
                        *self,
                        *old(cache),
                        *final(cache),
                        opt_str_view(repo_id),
                        workdir_root@,
                    )
                }
            }),
    {
        let install_idx: usize = if self.path.is_some() {
            if let Err(e) = outcome_at(outcomes, 0) {
                return Err(e);
            }
            1
        } else {
            0
        };
        if let Err(e) = outcome_at(outcomes, install_idx) {
            return Err(e);
        }
        self.update_cache(cache, repo_id, workdir_root);
        Ok(())
    }

    /// Teardown: when the configured install path exists, remove it
    /// and then walk up its parents, removing each that the removals
    /// left empty and stopping at the first that is not.  A missing
    /// path is a no-op reported as such; nothing else is touched.
    pub fn down(&self, fs: &mut FsModel, cwd: &Vec<String>) -> (r: DownOutcome)
        ensures
            match self.path {
                None => r is NothingToDo && *final(fs) == *old(fs),
                Some(p) => {
                    let abs = spec_resolve(cwd.deep_view(), p@);
                    if !old(fs).entry_at(abs) {
                        r is NothingToDo && *final(fs) == *old(fs)
                    } else {
                        &&& r is Removed
                        &&& forall|q: Seq<Seq<char>>| #[trigger]
                            final(fs).file_at(q) <==> old(fs).file_at(q) && !is_prefix(abs, q)
                        &&& forall|q: Seq<Seq<char>>| #[trigger]
                            final(fs).dir_at(q) <==> old(fs).dir_at(q) && !is_prefix(abs, q)
                                && !cleared_after_removal(*old(fs), abs, q)
                    }
                },
            },
    {
        match &self.path {
            None => DownOutcome::NothingToDo,
            Some(p) => {
                let abs = resolve_path(cwd, p);
                let ghost absv = abs.deep_view();
                let ghost fs0 = *fs;
                if !fs.entry_exists(&abs) {
                    DownOutcome::NothingToDo
                } else {
                    fs.remove_tree(&abs);
                    let ghost fs1 = *fs;
                    proof {
                        assert forall|q: Seq<Seq<char>>| #[trigger]
                            fs1.entry_at(q) implies !is_prefix(absv, q) by {
                            if fs1.dir_at(q) {
                                assert(fs0.dir_at(q) && !is_prefix(absv, q));
                            } else {
                                assert(fs1.file_at(q));
                                assert(fs0.file_at(q) && !is_prefix(absv, q));
                            }
                        }
                    }
                    fs.remove_empty_parents(&abs);
                    proof {
                        assert forall|q: Seq<Seq<char>>| #[trigger]
                            fs.dir_at(q) <==> fs0.dir_at(q) && !is_prefix(absv, q)
                                && !cleared_after_removal(fs0, absv, q) by {
                            lemma_cleared_after_removal(fs0, fs1, absv, q);
                        }
                        assert(fs.files == fs1.files);
                        assert forall|q: Seq<Seq<char>>| #[trigger]
                            fs.file_at(q) <==> fs0.file_at(q) && !is_prefix(absv, q) by {
                            assert(fs.file_at(q) == fs1.file_at(q));
                        }
                    }
                    DownOutcome::Removed
                }
            },
        }
    }
}

} // verus!
