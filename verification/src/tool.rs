//! The tool dispatcher: one variant per supported tool name, routing
//! construction, install, teardown, availability and the composed
//! base-tool lookup to the active variant.

use vstd::prelude::*;
use crate::asdf::UpConfigAsdfBase;
use crate::bundler::{
    bundler_cache_updated, opt_str_view, spec_bundler_gemfile, spec_bundler_path, UpConfigBundler,
};
use crate::cache::Cache;
use crate::config::{spec_version_from_config, ConfigValue};
use crate::fsmodel::{cleared_after_removal, is_prefix, FsModel};
use crate::paths::{path_components, spec_resolve, spec_split};
use crate::python::{
    python_cache_updated, spec_venv_components, spec_with_venv_from_config, venv_setup_fs_post,
    UpConfigPython,
};
use crate::run::{outcome_at, outcome_msg, outcome_ok, RunOutcome, UpError};

verus! {

/// The directory a custom tool names in its configuration.
pub open spec fn spec_custom_dir(cv: Option<&ConfigValue>) -> Option<Seq<char>> {
    match cv {
        Some(v) => match v.spec_get("dir"@) {
            Some(w) => match w {
                ConfigValue::Str(s) => Some(s@),
                _ => None,
            },
            None => None,
        },
        None => None,
    }
}

/// A tool defined by the project itself; the commands it runs are its
/// own, and only the directory it declares matters here.
#[derive(Debug, Clone)]
pub struct UpConfigCustom {
    pub dir: Option<String>,
}

impl UpConfigCustom {
    /// Parse the custom tool's settings out of the configuration
    /// value.
    pub fn from_config_value(config_value: Option<&ConfigValue>) -> (r: Self)
        ensures
            opt_str_view(r.dir) == spec_custom_dir(config_value),
    {
        let mut dir: Option<String> = None;
        if let Some(cv) = config_value {
            if let Some(value) = cv.get(&"dir".to_owned()) {
                if let Some(s) = value.as_str() {
                    dir = Some(s.clone());
                }
            }
        }
        UpConfigCustom { dir }
    }

    /// The directory the tool declares, when it declares one.
    pub fn dir(&self) -> (r: Option<String>)
        ensures
            opt_str_view(r) == opt_str_view(self.dir),
    {
        match &self.dir {
            Some(d) => Some(d.clone()),
            None => None,
        }
    }
}

/// The go toolchain, handled through the version manager.
#[derive(Debug, Clone)]
pub struct UpConfigGolang {
    pub version: String,
    pub asdf_base: UpConfigAsdfBase,
}

impl UpConfigGolang {
    /// Parse the requested toolchain version and derive the base tool.
    pub fn from_config_value(config_value: Option<&ConfigValue>) -> (r: Self)
        ensures
            r.version@ == spec_version_from_config(config_value),
            r.asdf_base.name@ == "golang"@,
            r.asdf_base.version@ == spec_version_from_config(config_value),
    {
        let version = crate::config::version_from_config(config_value);
        let asdf_base = UpConfigAsdfBase::new("golang", version.as_str());
        UpConfigGolang { version, asdf_base }
    }

    /// The composed base tool.
    pub fn asdf_base(&self) -> (r: &UpConfigAsdfBase)
        ensures
            r == self.asdf_base,
    {
        &self.asdf_base
    }
}

/// The node runtime, handled through the version manager.
#[derive(Debug, Clone)]
pub struct UpConfigNodejs {
    pub asdf_base: UpConfigAsdfBase,
}

impl UpConfigNodejs {
    /// Parse the requested runtime version and derive the base tool.
    pub fn from_config_value(config_value: Option<&ConfigValue>) -> (r: Self)
        ensures
            r.asdf_base.name@ == "nodejs"@,
            r.asdf_base.version@ == spec_version_from_config(config_value),
    {
        let version = crate::config::version_from_config(config_value);
        let asdf_base = UpConfigAsdfBase::new("nodejs", version.as_str());
        UpConfigNodejs { asdf_base }
    }
}

/// The system package manager tool; its work is external, and whether
/// it can run at all depends on the host.
#[derive(Debug, Clone)]
pub struct UpConfigHomebrew {}

impl UpConfigHomebrew {
    /// The package-manager tool has no settings of its own here.
    pub fn from_config_value(config_value: Option<&ConfigValue>) -> (r: Self) {
        UpConfigHomebrew {  }
    }

    /// Whether the package manager is available: exactly what the
    /// host probe reported.
    pub fn is_available(&self, host_has_homebrew: bool) -> (r: bool)
        ensures
            r == host_has_homebrew,
    {
        host_has_homebrew
    }
}

/// What the surrounding process hands a tool for one install or
/// teardown: the outcomes of the externally run commands in the order
/// the tool issues them, the repository identity (none when outside a
/// recognized repository), and the roots that paths derive from.
#[derive(Debug)]
pub struct UpContext {
    pub outcomes: Vec<RunOutcome>,
    pub repo_id: Option<String>,
    pub workdir_root: String,
    pub asdf_path: String,
}

impl UpContext {
    /// A copy of the repository id, for handing into a cache mutation.
    fn repo_id_copy(&self) -> (r: Option<String>)
        ensures
            opt_str_view(r) == opt_str_view(self.repo_id),
    {
        match &self.repo_id {
            Some(s) => Some(s.clone()),
            None => None,
        }
    }
}

/// The supported tool names.
pub open spec fn spec_known_tool(n: Seq<char>) -> bool {
    ||| n == "bash"@
    ||| n == "bundler"@
    ||| n == "bundle"@
    ||| n == "custom"@
    ||| n == "go"@
    ||| n == "golang"@
    ||| n == "homebrew"@
    ||| n == "brew"@
    ||| n == "nodejs"@
    ||| n == "node"@
    ||| n == "python"@
    ||| n == "ruby"@
    ||| n == "rust"@
}

/// One variant per supported tool.
#[derive(Debug, Clone)]
pub enum UpConfigTool {
    Bash(UpConfigAsdfBase),
    Bundler(UpConfigBundler),
    Custom(UpConfigCustom),
    Go(UpConfigGolang),
    Homebrew(UpConfigHomebrew),
    Nodejs(UpConfigNodejs),
    Python(UpConfigPython),
    Ruby(UpConfigAsdfBase),
    Rust(UpConfigAsdfBase),
}

impl UpConfigTool {
    /// Construct the tool named `up_name` from its configuration
    /// value; every supported name (aliases included) yields its
    /// variant, and an unsupported name yields nothing.
    #[verifier::rlimit(50)]
    pub fn from_config_value(up_name: &str, config_value: Option<&ConfigValue>) -> (r: Option<
        Self,
    >)
        ensures
            r is Some <==> spec_known_tool(up_name@),
            up_name@ == "bash"@ ==> (r matches Some(t) && (t matches UpConfigTool::Bash(a)
                && a.name@ == "bash"@ && a.version@ == spec_version_from_config(config_value) && (
            a.install_url matches Some(u) && u@ == "https://github.com/XaF/asdf-bash"@))),
            (up_name@ == "bundler"@ || up_name@ == "bundle"@) ==> (r matches Some(t) && (t matches
                UpConfigTool::Bundler(b) && opt_str_view(b.gemfile) == spec_bundler_gemfile(
                config_value,
            ) && (b.path matches Some(p) && p@ == spec_bundler_path(config_value)))),
            up_name@ == "custom"@ ==> (r matches Some(t) && (t matches UpConfigTool::Custom(c)
                && opt_str_view(c.dir) == spec_custom_dir(config_value))),
            (up_name@ == "go"@ || up_name@ == "golang"@) ==> (r matches Some(t) && (t matches
                UpConfigTool::Go(g) && g.version@ == spec_version_from_config(config_value)
                && g.asdf_base.name@ == "golang"@)),
            (up_name@ == "homebrew"@ || up_name@ == "brew"@) ==> (r matches Some(t) && t matches
                UpConfigTool::Homebrew(_)),
            (up_name@ == "nodejs"@ || up_name@ == "node"@) ==> (r matches Some(t) && (t matches
                UpConfigTool::Nodejs(n) && n.asdf_base.name@ == "nodejs"@ && n.asdf_base.version@
                == spec_version_from_config(config_value))),
            up_name@ == "python"@ ==> (r matches Some(t) && (t matches UpConfigTool::Python(p)
                && p.version@ == spec_version_from_config(config_value) && p.with_venv
                == spec_with_venv_from_config(config_value) && p.asdf_base.name@ == "python"@)),
            up_name@ == "ruby"@ ==> (r matches Some(t) && (t matches UpConfigTool::Ruby(a)
                && a.name@ == "ruby"@ && a.version@ == spec_version_from_config(config_value))),
            up_name@ == "rust"@ ==> (r matches Some(t) && (t matches UpConfigTool::Rust(a)
                && a.name@ == "rust"@ && a.version@ == spec_version_from_config(config_value))),
    {
        proof {
            reveal_strlit("bash");
            reveal_strlit("bundler");
            reveal_strlit("bundle");
            reveal_strlit("custom");
            reveal_strlit("go");
            reveal_strlit("golang");
            reveal_strlit("homebrew");
            reveal_strlit("brew");
            reveal_strlit("nodejs");
            reveal_strlit("node");
            reveal_strlit("python");
            reveal_strlit("ruby");
            reveal_strlit("rust");
            assert("bash"@.len() == 4 && "bundler"@.len() == 7 && "bundle"@.len() == 6
                && "custom"@.len() == 6 && "go"@.len() == 2 && "golang"@.len() == 6
                && "homebrew"@.len() == 8 && "brew"@.len() == 4 && "nodejs"@.len() == 6
                && "node"@.len() == 4 && "python"@.len() == 6 && "ruby"@.len() == 4
                && "rust"@.len() == 4);
            assert("bash"@[1] != "brew"@[1] && "bash"@ != "brew"@);
            assert("bash"@[0] != "node"@[0] && "bash"@ != "node"@);
            assert("bash"@[0] != "ruby"@[0] && "bash"@ != "ruby"@);
            assert("bash"@[0] != "rust"@[0] && "bash"@ != "rust"@);
            assert("brew"@[0] != "node"@[0] && "brew"@ != "node"@);
            assert("brew"@[1] != "ruby"@[1] && "brew"@ != "ruby"@);
            assert("brew"@[1] != "rust"@[1] && "brew"@ != "rust"@);
            assert("node"@[0] != "ruby"@[0] && "node"@ != "ruby"@);
            assert("node"@[0] != "rust"@[0] && "node"@ != "rust"@);
            assert("ruby"@[2] != "rust"@[2] && "ruby"@ != "rust"@);
            assert("bundle"@[0] != "custom"@[0] && "bundle"@ != "custom"@);
            assert("bundle"@[0] != "golang"@[0] && "bundle"@ != "golang"@);
            assert("bundle"@[0] != "nodejs"@[0] && "bundle"@ != "nodejs"@);
            assert("bundle"@[0] != "python"@[0] && "bundle"@ != "python"@);
            assert("custom"@[0] != "golang"@[0] && "custom"@ != "golang"@);
            assert("custom"@[0] != "nodejs"@[0] && "custom"@ != "nodejs"@);
            assert("custom"@[0] != "python"@[0] && "custom"@ != "python"@);
            assert("golang"@[0] != "nodejs"@[0] && "golang"@ != "nodejs"@);
            assert("golang"@[0] != "python"@[0] && "golang"@ != "python"@);
            assert("nodejs"@[0] != "python"@[0] && "nodejs"@ != "python"@);
        }
        let n = up_name.to_owned();
        if n.eq(&"bash".to_owned()) {
            Some(UpConfigTool::Bash(UpConfigAsdfBase::from_config_value_with_url(
                "bash",
                "https://github.com/XaF/asdf-bash",
                config_value,
            )))
        } else if n.eq(&"bundler".to_owned()) || n.eq(&"bundle".to_owned()) {
            Some(UpConfigTool::Bundler(UpConfigBundler::from_config_value(config_value)))
        } else if n.eq(&"custom".to_owned()) {
            Some(UpConfigTool::Custom(UpConfigCustom::from_config_value(config_value)))
        } else if n.eq(&"go".to_owned()) || n.eq(&"golang".to_owned()) {
            Some(UpConfigTool::Go(UpConfigGolang::from_config_value(config_value)))
        } else if n.eq(&"homebrew".to_owned()) || n.eq(&"brew".to_owned()) {
            Some(UpConfigTool::Homebrew(UpConfigHomebrew::from_config_value(config_value)))
        } else if n.eq(&"nodejs".to_owned()) || n.eq(&"node".to_owned()) {
            Some(UpConfigTool::Nodejs(UpConfigNodejs::from_config_value(config_value)))
        } else if n.eq(&"python".to_owned()) {
            Some(UpConfigTool::Python(UpConfigPython::from_config_value(config_value)))
        } else if n.eq(&"ruby".to_owned()) {
            Some(UpConfigTool::Ruby(UpConfigAsdfBase::from_config_value("ruby", config_value)))
        } else if n.eq(&"rust".to_owned()) {
            Some(UpConfigTool::Rust(UpConfigAsdfBase::from_config_value("rust", config_value)))
        } else {
            None
        }
    }

    /// Install the active tool.  For the bundler and python tools the
    /// full contract of the variant applies; every other variant's
    /// work is external and judged by its first reported outcome.
    pub fn up(&self, ctx: &UpContext, fs: &mut FsModel, cache: &mut Cache) -> (r: Result<
        (),
        UpError,
    >)
        requires
            old(cache).wf(),
        ensures
            final(cache).wf(),
            match self {
                UpConfigTool::Bundler(b) => ({
                    let os = ctx.outcomes@;
                    let install = if b.path is Some {
                        1int
                    } else {
                        0int
                    };
                    if b.path is Some && !outcome_ok(os, 0) {
                        &&& r matches Err(UpError::Exec(m)) && m@ == outcome_msg(os, 0)
                        &&& *final(cache) == *old(cache)
                        &&& *final(fs) == *old(fs)
                    } else if !outcome_ok(os, install) {
                        &&& r matches Err(UpError::Exec(m)) && m@ == outcome_msg(os, install)
                        &&& *final(cache) == *old(cache)
                        &&& *final(fs) == *old(fs)
                    } else {
                        &&& r is Ok
                        &&& bundler_cache_updated(
                            *b,
                            *old(cache),
                            *final(cache),
                            opt_str_view(ctx.repo_id),
                            ctx.workdir_root@,
                        )
                        &&& *final(fs) == *old(fs)
                    }
                }),
                UpConfigTool::Python(p) => ({
                    let os = ctx.outcomes@;
                    let vc = spec_venv_components(ctx.workdir_root@);
                    let marker = vc.push("pyvenv.cfg"@);
                    let d = old(fs).dir_at(vc);
                    let m = old(fs).file_at(marker);
                    if !outcome_ok(os, 0) {
                        &&& r matches Err(UpError::Exec(msg)) && msg@ == outcome_msg(os, 0)
                        &&& *final(fs) == *old(fs)
                        &&& *final(cache) == *old(cache)
                    } else if !p.with_venv {
                        &&& r is Ok
                        &&& *final(fs) == *old(fs)
                        &&& *final(cache) == *old(cache)
                    } else {
                        &&& python_cache_updated(
                            *p,
                            *old(cache),
                            *final(cache),
                            opt_str_view(ctx.repo_id),
                            ctx.workdir_root@,
                        )
                        &&& if d != m {
                            &&& r matches Err(UpError::Fatal(msg)) && msg@
                                == "a venv dir exists, but it was not set up"@
                            &&& *final(fs) == *old(fs)
                        } else if m {
                            &&& r is Ok
                            &&& *final(fs) == *old(fs)
                        } else {
                            &&& r is Ok
                            &&& venv_setup_fs_post(*old(fs), *final(fs), ctx.workdir_root@)
                        }
                    }
                }),
                _ => ({
                    let os = ctx.outcomes@;
                    &&& *final(fs) == *old(fs)
                    &&& *final(cache) == *old(cache)
                    &&& match r {
                        Ok(_) => outcome_ok(os, 0),
                        Err(e) => !outcome_ok(os, 0) && (e matches UpError::Exec(m) && m@
                            == outcome_msg(os, 0)),
                    }
                }),
            },
    {
        match self {
            UpConfigTool::Bundler(b) => {
                let rid = ctx.repo_id_copy();
                b.up(&ctx.outcomes, cache, rid, &ctx.workdir_root)
            },
            UpConfigTool::Python(p) => {
                let rid = ctx.repo_id_copy();
                match p.up(&ctx.outcomes, fs, cache, rid, &ctx.workdir_root, &ctx.asdf_path) {
                    Ok(_) => Ok(()),
                    Err(e) => Err(e),
                }
            },
            UpConfigTool::Bash(a) => a.up(&ctx.outcomes),
            UpConfigTool::Ruby(a) => a.up(&ctx.outcomes),
            UpConfigTool::Rust(a) => a.up(&ctx.outcomes),
            UpConfigTool::Go(g) => g.asdf_base.up(&ctx.outcomes),
            UpConfigTool::Nodejs(n) => n.asdf_base.up(&ctx.outcomes),
            UpConfigTool::Custom(_) => outcome_at(&ctx.outcomes, 0),
            UpConfigTool::Homebrew(_) => outcome_at(&ctx.outcomes, 0),
        }
    }

    /// Tear the active tool down.  The bundler and python variants
    /// carry their full teardown contracts; every other variant's work
    /// is external and judged by its first reported outcome.
    pub fn down(&self, ctx: &UpContext, fs: &mut FsModel) -> (r: Result<(), UpError>)
        ensures
            match self {
                UpConfigTool::Bundler(b) => ({
                    &&& r is Ok
                    &&& match b.path {
                        None => *final(fs) == *old(fs),
                        Some(p) => {
                            let abs = spec_resolve(spec_split(ctx.workdir_root@), p@);
                            if !old(fs).entry_at(abs) {
                                *final(fs) == *old(fs)
                            } else {
                                &&& forall|q: Seq<Seq<char>>| #[trigger]
                                    final(fs).file_at(q) <==> old(fs).file_at(q) && !is_prefix(
                                        abs,
                                        q,
                                    )
                                &&& forall|q: Seq<Seq<char>>| #[trigger]
                                    final(fs).dir_at(q) <==> old(fs).dir_at(q) && !is_prefix(
                                        abs,
                                        q,
                                    ) && !cleared_after_removal(*old(fs), abs, q)
                            }
                        },
                    }
                }),
                UpConfigTool::Python(p) => ({
                    let os = ctx.outcomes@;
                    let vc = spec_venv_components(ctx.workdir_root@);
                    let marker = vc.push("pyvenv.cfg"@);
                    let d = old(fs).dir_at(vc);
                    let m = old(fs).file_at(marker);
                    if d != m {
                        &&& r matches Err(UpError::Fatal(msg)) && msg@
                            == "a venv dir exists, but it was not set up"@
                        &&& *final(fs) == *old(fs)
                    } else {
                        &&& (if m {
                            &&& forall|q: Seq<Seq<char>>| #[trigger]
                                final(fs).dir_at(q) <==> old(fs).dir_at(q) && !is_prefix(vc, q)
                            &&& forall|q: Seq<Seq<char>>| #[trigger]
                                final(fs).file_at(q) <==> old(fs).file_at(q) && !is_prefix(vc, q)
                        } else {
                            *final(fs) == *old(fs)
                        })
                        &&& (match r {
                            Ok(_) => outcome_ok(os, 0),
                            Err(e) => !outcome_ok(os, 0) && (e matches UpError::Exec(msg) && msg@
                                == outcome_msg(os, 0)),
                        })
                    }
                }),
                _ => ({
                    let os = ctx.outcomes@;
                    &&& *final(fs) == *old(fs)
                    &&& match r {
                        Ok(_) => outcome_ok(os, 0),
                        Err(e) => !outcome_ok(os, 0) && (e matches UpError::Exec(m) && m@
                            == outcome_msg(os, 0)),
                    }
                }),
            },
    {
        match self {
            UpConfigTool::Bundler(b) => {
                let cwd = path_components(&ctx.workdir_root);
                b.down(fs, &cwd);
                Ok(())
            },
            UpConfigTool::Python(p) => p.down(&ctx.outcomes, fs, &ctx.workdir_root),
            UpConfigTool::Bash(a) => a.down(&ctx.outcomes),
            UpConfigTool::Ruby(a) => a.down(&ctx.outcomes),
            UpConfigTool::Rust(a) => a.down(&ctx.outcomes),
            UpConfigTool::Go(g) => g.asdf_base.down(&ctx.outcomes),
            UpConfigTool::Nodejs(n) => n.asdf_base.down(&ctx.outcomes),
            UpConfigTool::Custom(_) => outcome_at(&ctx.outcomes, 0),
            UpConfigTool::Homebrew(_) => outcome_at(&ctx.outcomes, 0),
        }
    }

    /// Every tool is available except the package-manager tool, whose
    /// availability is whatever the host probe reported.
    pub fn is_available(&self, host_has_homebrew: bool) -> (r: bool)
        ensures
            r == match self {
                UpConfigTool::Homebrew(_) => host_has_homebrew,
                _ => true,
            },
    {
        match self {
            UpConfigTool::Homebrew(config) => config.is_available(host_has_homebrew),
            _ => true,
        }
    }

    /// The composed version-manager base tool, for the tools built on
    /// one.
    pub fn asdf_tool(&self) -> (r: Option<&UpConfigAsdfBase>)
        ensures
            match self {
                UpConfigTool::Bash(a) => r matches Some(b) && b == a,
                UpConfigTool::Go(g) => r matches Some(b) && b == g.asdf_base,
                UpConfigTool::Nodejs(n) => r matches Some(b) && b == n.asdf_base,
                UpConfigTool::Python(p) => r matches Some(b) && b == p.asdf_base,
                UpConfigTool::Ruby(a) => r matches Some(b) && b == a,
                UpConfigTool::Rust(a) => r matches Some(b) && b == a,
                _ => r is None,
            },
    {
        match self {
            UpConfigTool::Bash(config) => Some(config),
            UpConfigTool::Go(config) => Some(config.asdf_base()),
            UpConfigTool::Nodejs(config) => Some(&config.asdf_base),
            UpConfigTool::Python(config) => Some(config.asdf_base()),
            UpConfigTool::Ruby(config) => Some(config),
            UpConfigTool::Rust(config) => Some(config),
            _ => None,
        }
    }

    /// The directory the active tool declares: only a custom tool has
    /// one.
    pub fn dir(&self) -> (r: Option<String>)
        ensures
            opt_str_view(r) == match self {
                UpConfigTool::Custom(c) => opt_str_view(c.dir),
                _ => None,
            },
    {
        match self {
            UpConfigTool::Custom(config) => config.dir(),
            _ => None,
        }
    }
}

} // verus!
