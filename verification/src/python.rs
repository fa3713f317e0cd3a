//! The python tool: composes the version-manager base tool for the
//! interpreter itself, then optionally sets up a per-repository venv,
//! records it in the shared cache at most once per version, and tears
//! both down again.

use vstd::prelude::*;
use crate::asdf::UpConfigAsdfBase;
use crate::bundler::opt_str_view;
use crate::cache::{
    entries_except, merge_venv_cache_post, venv_recorded, Cache, CacheMutation,
};
use crate::config::{spec_version_from_config, version_from_config, ConfigValue};
use crate::fsmodel::{clone_path, FsModel};
use crate::kv::has_key;
use crate::paths::{path_components, spec_after_last_slash, spec_split};
use crate::run::{now_unix, outcome_msg, outcome_ok, CmdSpec, RunOutcome, UpError};

verus! {

/// The python venv directory under a working directory root.
pub open spec fn spec_venv_dir(root: Seq<char>) -> Seq<char> {
    root + "/.omni/venv"@
}

/// The same directory as a component list.
pub open spec fn spec_venv_components(root: Seq<char>) -> Seq<Seq<char>> {
    spec_split(spec_venv_dir(root))
}

/// The shell-activation scripts a fresh venv ships in its binary
/// directory; they are deleted because sourcing them would corrupt the
/// environment variables the tool manages itself.
pub open spec fn spec_is_activation_script(root: Seq<char>, q: Seq<Seq<char>>) -> bool {
    let bin = spec_venv_components(root).push("bin"@);
    ||| q == bin.push("activate"@)
    ||| q == bin.push("activate.csh"@)
    ||| q == bin.push("activate.fish"@)
    ||| q == bin.push("Activate.ps1"@)
}

/// The tree after a venv setup: the venv directory, its binary
/// directory and its marker file exist, the activation scripts do not,
/// and nothing else moved.
pub open spec fn venv_setup_fs_post(o: FsModel, n: FsModel, root: Seq<char>) -> bool {
    let vc = spec_venv_components(root);
    let bin = vc.push("bin"@);
    let marker = vc.push("pyvenv.cfg"@);
    &&& forall|q: Seq<Seq<char>>| #[trigger] n.dir_at(q) <==> o.dir_at(q) || q == vc || q == bin
    &&& forall|q: Seq<Seq<char>>| #[trigger]
        n.file_at(q) <==> (o.file_at(q) || q == marker) && !spec_is_activation_script(root, q)
}

/// The cache after the python tool merged its venv result: no
/// repository id means no change; an already-recorded version leaves
/// the snapshot as it was; otherwise the repository's record gains the
/// venv variables and exactly one version record.
pub open spec fn python_cache_updated(
    cfg: UpConfigPython,
    old_c: Cache,
    new_c: Cache,
    rid: Option<Seq<char>>,
    root: Seq<char>,
) -> bool {
    match rid {
        None => new_c == old_c,
        Some(r) => {
            let ver = cfg.asdf_base.version@;
            if venv_recorded(old_c, r, ver) {
                new_c == old_c
            } else {
                &&& entries_except(old_c.env@, new_c.env@, r)
                &&& has_key(new_c.env@, r)
                &&& merge_venv_cache_post(
                    old_c,
                    new_c,
                    r,
                    ver,
                    spec_after_last_slash(root),
                    spec_venv_dir(root),
                )
            }
        },
    }
}

/// Whether the venv is present, judged from its directory and its
/// marker file together.
#[derive(Debug, PartialEq, Eq, Structural)]
pub enum VenvPresence {
    /// Neither the directory nor the marker exists.
    Absent,
    /// Both exist: the venv was set up completely.
    Present,
    /// Exactly one exists: external tampering or a partial failure;
    /// the tool treats this as fatal.
    Inconsistent,
}

/// What presence the two probes add up to.
pub open spec fn spec_venv_presence(dir_exists: bool, marker_exists: bool) -> VenvPresence {
    if dir_exists && marker_exists {
        VenvPresence::Present
    } else if !dir_exists && !marker_exists {
        VenvPresence::Absent
    } else {
        VenvPresence::Inconsistent
    }
}

/// Judge the venv's presence from the two probes the filesystem
/// answers: directory there, marker file there.
pub fn venv_presence_of(dir_exists: bool, marker_exists: bool) -> (r: VenvPresence)
    ensures
        r == spec_venv_presence(dir_exists, marker_exists),
{
    if dir_exists && marker_exists {
        VenvPresence::Present
    } else if !dir_exists && !marker_exists {
        VenvPresence::Absent
    } else {
        VenvPresence::Inconsistent
    }
}

/// The plan for creating a venv: the interpreter invocation to run,
/// and the activation scripts to delete afterwards.
#[derive(Debug)]
pub struct VenvSetupPlan {
    pub command: CmdSpec,
    pub scripts: Vec<String>,
}

/// What a python install reports beyond success.
#[derive(Debug)]
pub enum PythonUpOutcome {
    /// No venv was requested.
    NoVenv,
    /// The venv was already set up; nothing to create.
    VenvAlreadySetUp,
    /// The venv was created following this plan.
    VenvCreated(VenvSetupPlan),
}

/// Whether the configuration asks for a venv, under `with_venv`.
pub open spec fn spec_with_venv_from_config(cv: Option<&ConfigValue>) -> bool {
    match cv {
        Some(v) => match v.spec_get("with_venv"@) {
            Some(w) => match w {
                ConfigValue::Bool(b) => b,
                _ => false,
            },
            None => false,
        },
        None => false,
    }
}

/// Read the `with_venv` flag out of a configuration value; anything
/// but a boolean means no venv.
pub fn with_venv_from_config(value: Option<&ConfigValue>) -> (r: bool)
    ensures
        r == spec_with_venv_from_config(value),
{
    if let Some(val) = value {
        if let Some(wv) = val.get(&"with_venv".to_owned()) {
            wv.as_bool().unwrap_or(false)
        } else {
            false
        }
    } else {
        false
    }
}

/// The python tool's settings: the interpreter version, whether to set
/// up a venv, and the composed base tool that installs the
/// interpreter.
#[derive(Debug, Clone)]
pub struct UpConfigPython {
    pub version: String,
    pub with_venv: bool,
    pub asdf_base: UpConfigAsdfBase,
}

impl UpConfigPython {
    /// Parse the tool's settings out of the configuration value and
    /// derive the base tool for the requested interpreter version.
    pub fn from_config_value(config_value: Option<&ConfigValue>) -> (r: Self)
        ensures
            r.version@ == spec_version_from_config(config_value),
            r.with_venv == spec_with_venv_from_config(config_value),
            r.asdf_base.name@ == "python"@,
            r.asdf_base.version@ == spec_version_from_config(config_value),
    {
        let version = version_from_config(config_value);
        let with_venv = with_venv_from_config(config_value);
        let asdf_base = UpConfigAsdfBase::new("python", version.as_str());
        UpConfigPython { version, with_venv, asdf_base }
    }

    /// The composed base tool.
    pub fn asdf_base(&self) -> (r: &UpConfigAsdfBase)
        ensures
            r == self.asdf_base,
    {
        &self.asdf_base
    }

    /// The interpreter version the tool works with.
    pub fn version(&self) -> (r: String)
        ensures
            r@ == self.asdf_base.version@,
    {
        self.asdf_base.version.clone()
    }

    /// The venv directory under the working directory root.
    pub fn venv_dir(&self, workdir_root: &String) -> (r: String)
        ensures
            r@ == spec_venv_dir(workdir_root@),
    {
        workdir_root.clone().concat("/.omni/venv")
    }

    /// The venv's name: the working directory's own directory name.
    pub fn venv_name(&self, workdir_root: &String) -> (r: String)
        ensures
            r@ == spec_after_last_slash(workdir_root@),
    {
        crate::paths::after_last_slash(workdir_root)
    }

    /// The venv's presence in the tree: both directory and marker, or
    /// neither, or the inconsistent in-between.
    pub fn venv_presence(&self, fs: &FsModel, workdir_root: &String) -> (r: VenvPresence)
        ensures
            r == spec_venv_presence(
                fs.dir_at(spec_venv_components(workdir_root@)),
                fs.file_at(spec_venv_components(workdir_root@).push("pyvenv.cfg"@)),
            ),
    {
        let vd = self.venv_dir(workdir_root);
        let vc = path_components(&vd);
        let mut marker = clone_path(&vc);
        marker.push("pyvenv.cfg".to_owned());
        proof {
            assert(marker.deep_view() =~= spec_venv_components(workdir_root@).push(
                "pyvenv.cfg"@,
            ));
        }
        let d = fs.dir_exists(&vc);
        let m = fs.file_exists(&marker);
        venv_presence_of(d, m)
    }

    /// Whether the venv is present.  The caller rules the inconsistent
    /// case out first; this mirrors a check that treats it as fatal.
    pub fn venv_present(&self, fs: &FsModel, workdir_root: &String) -> (r: bool)
        requires
            fs.dir_at(spec_venv_components(workdir_root@)) == fs.file_at(
                spec_venv_components(workdir_root@).push("pyvenv.cfg"@),
            ),
        ensures
            r == fs.file_at(spec_venv_components(workdir_root@).push("pyvenv.cfg"@)),
    {
        let vd = self.venv_dir(workdir_root);
        let vc = path_components(&vd);
        let mut marker = clone_path(&vc);
        marker.push("pyvenv.cfg".to_owned());
        proof {
            assert(marker.deep_view() =~= spec_venv_components(workdir_root@).push(
                "pyvenv.cfg"@,
            ));
        }
        fs.file_exists(&marker)
    }

    /// Merge the venv result into the shared cache, at most once per
    /// version.  Reports whether the cache changed.
    pub fn update_cache(&self, cache: &mut Cache, repo_id: Option<String>, workdir_root: &String)
        -> (r: bool)
        requires
            old(cache).wf(),
        ensures
            final(cache).wf(),
            r == (match opt_str_view(repo_id) {
                Some(rid) => !venv_recorded(*old(cache), rid, self.asdf_base.version@),
                None => false,
            }),
            python_cache_updated(
                *self,
                *old(cache),
                *final(cache),
                opt_str_view(repo_id),
                workdir_root@,
            ),
    {
        let venv_name = self.venv_name(workdir_root);
        let venv_path = self.venv_dir(workdir_root);
        let version = self.version();
        let now = now_unix();
        let m = CacheMutation::MergeVenv { repo_id, version, venv_name, venv_path };
        cache.exclusive(m, now)
    }

    /// Create the venv in the tree and delete its activation scripts;
    /// the returned plan names the interpreter invocation that does
    /// the creating and the scripts that are deleted.
    pub fn venv_setup(&self, fs: &mut FsModel, asdf_path: &String, workdir_root: &String) -> (r:
        VenvSetupPlan)
        ensures
            venv_setup_fs_post(*old(fs), *final(fs), workdir_root@),
            r.command.program@ == asdf_path@ + "/installs/python/"@ + self.asdf_base.version@
                + "/bin/python3"@,
            r.command.args.deep_view() == seq!["-m"@, "venv"@, spec_venv_dir(workdir_root@)],
            r.scripts.deep_view() == seq![
                spec_venv_dir(workdir_root@) + "/bin/activate"@,
                spec_venv_dir(workdir_root@) + "/bin/activate.csh"@,
                spec_venv_dir(workdir_root@) + "/bin/activate.fish"@,
                spec_venv_dir(workdir_root@) + "/bin/Activate.ps1"@,
            ],
    {
        let vd = self.venv_dir(workdir_root);
        let vc = path_components(&vd);
        let mut bin = clone_path(&vc);
        bin.push("bin".to_owned());
        let mut marker = clone_path(&vc);
        marker.push("pyvenv.cfg".to_owned());
        let mut s1 = clone_path(&bin);
        s1.push("activate".to_owned());
        let mut s2 = clone_path(&bin);
        s2.push("activate.csh".to_owned());
        let mut s3 = clone_path(&bin);
        s3.push("activate.fish".to_owned());
        let mut s4 = clone_path(&bin);
        s4.push("Activate.ps1".to_owned());
        let ghost root = workdir_root@;
        let ghost vcv = spec_venv_components(root);
        let ghost binv = vcv.push("bin"@);
        let ghost markerv = vcv.push("pyvenv.cfg"@);
        proof {
            assert(bin.deep_view() =~= binv);
            assert(marker.deep_view() =~= markerv);
            assert(s1.deep_view() =~= binv.push("activate"@));
            assert(s2.deep_view() =~= binv.push("activate.csh"@));
            assert(s3.deep_view() =~= binv.push("activate.fish"@));
            assert(s4.deep_view() =~= binv.push("Activate.ps1"@));
        }
        proof {
            assert(vc.deep_view() == vcv);
        }
        let ghost g0 = *fs;
        // the interpreter's own work, modeled: the venv tree appears
        fs.add_dir(clone_path(&vc));
        let ghost g1 = *fs;
        fs.add_dir(clone_path(&bin));
        let ghost g2 = *fs;
        fs.add_file(clone_path(&marker));
        let ghost g3 = *fs;
        fs.add_file(clone_path(&s1));
        let ghost g4 = *fs;
        fs.add_file(clone_path(&s2));
        let ghost g5 = *fs;
        fs.add_file(clone_path(&s3));
        let ghost g6 = *fs;
        fs.add_file(clone_path(&s4));
        let ghost g7 = *fs;
        // the tool's own step: the activation scripts go
        fs.remove_file(&s1);
        let ghost g8 = *fs;
        fs.remove_file(&s2);
        let ghost g9 = *fs;
        fs.remove_file(&s3);
        let ghost g10 = *fs;
        fs.remove_file(&s4);
        proof {
            let sc1 = binv.push("activate"@);
            let sc2 = binv.push("activate.csh"@);
            let sc3 = binv.push("activate.fish"@);
            let sc4 = binv.push("Activate.ps1"@);
            assert(markerv.len() == vcv.len() + 1);
            assert(markerv.len() != sc1.len());
            assert(markerv.len() != sc2.len());
            assert(markerv.len() != sc3.len());
            assert(markerv.len() != sc4.len());
            assert(!spec_is_activation_script(root, markerv));
            assert forall|q: Seq<Seq<char>>| #[trigger]
                fs.dir_at(q) <==> g0.dir_at(q) || q == vcv || q == binv by {
                assert(fs.dir_at(q) == g7.dir_at(q));
                assert(g7.dir_at(q) == g2.dir_at(q));
                assert(g2.dir_at(q) <==> g1.dir_at(q) || q == binv);
                assert(g1.dir_at(q) <==> g0.dir_at(q) || q == vcv);
            }
            assert forall|q: Seq<Seq<char>>| #[trigger]
                fs.file_at(q) <==> (g0.file_at(q) || q == markerv) && !spec_is_activation_script(
                    root,
                    q,
                ) by {
                assert(fs.file_at(q) <==> g10.file_at(q) && q != sc4);
                assert(g10.file_at(q) <==> g9.file_at(q) && q != sc3);
                assert(g9.file_at(q) <==> g8.file_at(q) && q != sc2);
                assert(g8.file_at(q) <==> g7.file_at(q) && q != sc1);
                assert(g7.file_at(q) <==> g6.file_at(q) || q == sc4);
                assert(g6.file_at(q) <==> g5.file_at(q) || q == sc3);
                assert(g5.file_at(q) <==> g4.file_at(q) || q == sc2);
                assert(g4.file_at(q) <==> g3.file_at(q) || q == sc1);
                assert(g3.file_at(q) <==> g2.file_at(q) || q == markerv);
                assert(g2.file_at(q) == g0.file_at(q));
            }
        }
        let program = asdf_path.clone().concat("/installs/python/").concat(
            self.asdf_base.version.as_str(),
        ).concat("/bin/python3");
        let mut args: Vec<String> = Vec::new();
        args.push("-m".to_owned());
        args.push("venv".to_owned());
        args.push(vd.clone());
        let mut scripts: Vec<String> = Vec::new();
        scripts.push(vd.clone().concat("/bin/activate"));
        scripts.push(vd.clone().concat("/bin/activate.csh"));
        scripts.push(vd.clone().concat("/bin/activate.fish"));
        scripts.push(vd.clone().concat("/bin/Activate.ps1"));
        proof {
            assert(args.deep_view() =~= seq!["-m"@, "venv"@, spec_venv_dir(root)]);
            assert(scripts.deep_view() =~= seq![
                spec_venv_dir(root) + "/bin/activate"@,
                spec_venv_dir(root) + "/bin/activate.csh"@,
                spec_venv_dir(root) + "/bin/activate.fish"@,
                spec_venv_dir(root) + "/bin/Activate.ps1"@,
            ]);
        }
        VenvSetupPlan { command: CmdSpec { program, args }, scripts }
    }

    /// Install: the interpreter first, through the base tool; then,
    /// when a venv is asked for, merge the venv into the cache and
    /// create it unless it is already there.  A half-existing venv is
    /// fatal, not repaired.
    pub fn up(
        &self,
        asdf_outcomes: &Vec<RunOutcome>,
        fs: &mut FsModel,
        cache: &mut Cache,
        repo_id: Option<String>,
        workdir_root: &String,
        asdf_path: &String,
    ) -> (r: Result<PythonUpOutcome, UpError>)
        requires
            old(cache).wf(),
        ensures
            final(cache).wf(),
            ({
                let os = asdf_outcomes@;
                let vc = spec_venv_components(workdir_root@);
                let marker = vc.push("pyvenv.cfg"@);
                let d = old(fs).dir_at(vc);
                let m = old(fs).file_at(marker);
                if !outcome_ok(os, 0) {
                    &&& r matches Err(UpError::Exec(msg)) && msg@ == outcome_msg(os, 0)
                    &&& *final(fs) == *old(fs)
                    &&& *final(cache) == *old(cache)
                } else if !self.with_venv {
                    &&& r matches Ok(PythonUpOutcome::NoVenv)
                    &&& *final(fs) == *old(fs)
                    &&& *final(cache) == *old(cache)
                } else {
                    &&& python_cache_updated(
                        *self,
                        *old(cache),
                        *final(cache),
                        opt_str_view(repo_id),
                        workdir_root@,
                    )
                    &&& if d != m {
                        &&& r matches Err(UpError::Fatal(msg)) && msg@
                            == "a venv dir exists, but it was not set up"@
                        &&& *final(fs) == *old(fs)
                    } else if m {
                        &&& r matches Ok(PythonUpOutcome::VenvAlreadySetUp)
                        &&& *final(fs) == *old(fs)
                    } else {
                        &&& r matches Ok(PythonUpOutcome::VenvCreated(_))
                        &&& venv_setup_fs_post(*old(fs), *final(fs), workdir_root@)
                    }
                }
            }),
    {
        if let Err(e) = self.asdf_base.up(asdf_outcomes) {
            return Err(e);
        }
        if !self.with_venv {
            return Ok(PythonUpOutcome::NoVenv);
        }
        self.update_cache(cache, repo_id, workdir_root);
        let vd = self.venv_dir(workdir_root);
        let vc = path_components(&vd);
        let mut marker = clone_path(&vc);
        marker.push("pyvenv.cfg".to_owned());
        proof {
            assert(marker.deep_view() =~= spec_venv_components(workdir_root@).push(
                "pyvenv.cfg"@,
            ));
        }
        let d = fs.dir_exists(&vc);
        let m = fs.file_exists(&marker);
        match venv_presence_of(d, m) {
            VenvPresence::Inconsistent => Err(
                UpError::Fatal("a venv dir exists, but it was not set up".to_owned()),
            ),
            VenvPresence::Present => Ok(PythonUpOutcome::VenvAlreadySetUp),
            VenvPresence::Absent => {
                let plan = self.venv_setup(fs, asdf_path, workdir_root);
                Ok(PythonUpOutcome::VenvCreated(plan))
            },
        }
    }

    /// Teardown: delete the venv when it is present (a half-existing
    /// one is fatal), then hand the interpreter's teardown to the base
    /// tool.
    pub fn down(
        &self,
        asdf_outcomes: &Vec<RunOutcome>,
        fs: &mut FsModel,
        workdir_root: &String,
    ) -> (r: Result<(), UpError>)
        ensures
            ({
                let os = asdf_outcomes@;
                let vc = spec_venv_components(workdir_root@);
                let marker = vc.push("pyvenv.cfg"@);
                let d = old(fs).dir_at(vc);
                let m = old(fs).file_at(marker);
                if d != m {
                    &&& r matches Err(UpError::Fatal(msg)) && msg@
                        == "a venv dir exists, but it was not set up"@
                    &&& *final(fs) == *old(fs)
                } else {
                    &&& (if m {
                        &&& forall|q: Seq<Seq<char>>| #[trigger]
                            final(fs).dir_at(q) <==> old(fs).dir_at(q)
                                && !crate::fsmodel::is_prefix(vc, q)
                        &&& forall|q: Seq<Seq<char>>| #[trigger]
                            final(fs).file_at(q) <==> old(fs).file_at(q)
                                && !crate::fsmodel::is_prefix(vc, q)
                    } else {
                        *final(fs) == *old(fs)
                    })
                    &&& (match r {
                        Ok(_) => outcome_ok(os, 0),
                        Err(e) => !outcome_ok(os, 0) && (e matches UpError::Exec(msg) && msg@
                            == outcome_msg(os, 0)),
                    })
                }
            }),
    {
        let vd = self.venv_dir(workdir_root);
        let vc = path_components(&vd);
        let mut marker = clone_path(&vc);
        marker.push("pyvenv.cfg".to_owned());
        proof {
            assert(marker.deep_view() =~= spec_venv_components(workdir_root@).push(
                "pyvenv.cfg"@,
            ));
        }
        let d = fs.dir_exists(&vc);
        let m = fs.file_exists(&marker);
        match venv_presence_of(d, m) {
            VenvPresence::Inconsistent => {
                return Err(UpError::Fatal("a venv dir exists, but it was not set up".to_owned()));
            },
            VenvPresence::Present => {
                fs.remove_tree(&vc);
            },
            VenvPresence::Absent => {},
        }
        self.asdf_base.down(asdf_outcomes)
    }
}

} // verus!
