use omni_up::cache::Cache;
use omni_up::config::ConfigValue;
use omni_up::fsmodel::FsModel;
use omni_up::python::{
    with_venv_from_config, PythonUpOutcome, UpConfigPython, VenvPresence,
};
use omni_up::run::{RunOutcome, UpError};

fn s(x: &str) -> String {
    x.to_string()
}

fn path(parts: &[&str]) -> Vec<String> {
    parts.iter().map(|p| s(p)).collect()
}

fn python(version: &str, with_venv: bool) -> UpConfigPython {
    let cv = if with_venv {
        ConfigValue::Table(vec![
            (s("version"), ConfigValue::Str(s(version))),
            (s("with_venv"), ConfigValue::Bool(true)),
        ])
    } else {
        ConfigValue::Str(s(version))
    };
    UpConfigPython::from_config_value(Some(&cv))
}

#[test]
fn from_config_value_reads_version_and_venv_flag() {
    let p = python("3.12.1", true);
    assert_eq!(p.version, "3.12.1");
    assert!(p.with_venv);
    assert_eq!(p.asdf_base.name, "python");
    assert_eq!(p.asdf_base.version, "3.12.1");
    let q = python("3.11", false);
    assert_eq!(q.version, "3.11");
    assert!(!q.with_venv);
}

#[test]
fn from_config_value_defaults_to_latest() {
    let p = UpConfigPython::from_config_value(None);
    assert_eq!(p.version, "latest");
    assert!(!p.with_venv);
}

#[test]
fn with_venv_flag_falls_back_to_false() {
    assert!(!with_venv_from_config(None));
    let not_bool = ConfigValue::Table(vec![(s("with_venv"), ConfigValue::Str(s("yes")))]);
    assert!(!with_venv_from_config(Some(&not_bool)));
    let yes = ConfigValue::Table(vec![(s("with_venv"), ConfigValue::Bool(true))]);
    assert!(with_venv_from_config(Some(&yes)));
}

#[test]
fn venv_dir_and_name_derive_from_root() {
    let p = python("3.12", true);
    assert_eq!(p.venv_dir(&s("/home/proj")), "/home/proj/.omni/venv");
    assert_eq!(p.venv_name(&s("/home/proj")), "proj");
}

#[test]
fn venv_presence_absent_present_and_fatal_signal() {
    let p = python("3.12", true);
    let root = s("/home/proj");
    let venv = path(&["", "home", "proj", ".omni", "venv"]);
    let marker = path(&["", "home", "proj", ".omni", "venv", "pyvenv.cfg"]);

    let empty = FsModel { dirs: vec![], files: vec![] };
    assert_eq!(p.venv_presence(&empty, &root), VenvPresence::Absent);
    assert!(!p.venv_present(&empty, &root));

    let both = FsModel { dirs: vec![venv.clone()], files: vec![marker.clone()] };
    assert_eq!(p.venv_presence(&both, &root), VenvPresence::Present);
    assert!(p.venv_present(&both, &root));

    // exactly one of the two: the fatal, unrecoverable signal
    let dir_only = FsModel { dirs: vec![venv.clone()], files: vec![] };
    assert_eq!(p.venv_presence(&dir_only, &root), VenvPresence::Inconsistent);
    let marker_only = FsModel { dirs: vec![], files: vec![marker] };
    assert_eq!(p.venv_presence(&marker_only, &root), VenvPresence::Inconsistent);
}

#[test]
fn venv_setup_plan_names_interpreter_and_scripts() {
    let p = python("3.12.1", true);
    let mut fs = FsModel { dirs: vec![], files: vec![] };
    let plan = p.venv_setup(&mut fs, &s("/opt/asdf"), &s("/home/proj"));
    assert_eq!(plan.command.program, "/opt/asdf/installs/python/3.12.1/bin/python3");
    assert_eq!(
        plan.command.args,
        vec![s("-m"), s("venv"), s("/home/proj/.omni/venv")]
    );
    assert_eq!(
        plan.scripts,
        vec![
            s("/home/proj/.omni/venv/bin/activate"),
            s("/home/proj/.omni/venv/bin/activate.csh"),
            s("/home/proj/.omni/venv/bin/activate.fish"),
            s("/home/proj/.omni/venv/bin/Activate.ps1"),
        ]
    );
    // the tree holds the venv and its marker, but no activation script
    assert!(fs.dir_exists(&path(&["", "home", "proj", ".omni", "venv"])));
    assert!(fs.dir_exists(&path(&["", "home", "proj", ".omni", "venv", "bin"])));
    assert!(fs.file_exists(&path(&["", "home", "proj", ".omni", "venv", "pyvenv.cfg"])));
    assert!(!fs.file_exists(&path(&["", "home", "proj", ".omni", "venv", "bin", "activate"])));
}

#[test]
fn up_skips_venv_when_not_requested() {
    let p = python("3.12", false);
    let mut fs = FsModel { dirs: vec![], files: vec![] };
    let mut cache = Cache::new();
    let r = p.up(
        &vec![RunOutcome::Success],
        &mut fs,
        &mut cache,
        Some(s("repo")),
        &s("/home/proj"),
        &s("/opt/asdf"),
    );
    assert!(matches!(r, Ok(PythonUpOutcome::NoVenv)));
    assert!(cache.env.is_empty());
    assert!(fs.dirs.is_empty());
}

#[test]
fn up_aborts_when_interpreter_install_fails() {
    let p = python("3.12", true);
    let mut fs = FsModel { dirs: vec![], files: vec![] };
    let mut cache = Cache::new();
    let r = p.up(
        &vec![RunOutcome::Failure(s("no network"))],
        &mut fs,
        &mut cache,
        Some(s("repo")),
        &s("/home/proj"),
        &s("/opt/asdf"),
    );
    match r {
        Err(UpError::Exec(m)) => assert_eq!(m, "no network"),
        other => panic!("expected an execution error, got {:?}", other),
    }
    assert!(cache.env.is_empty());
}

#[test]
fn up_creates_venv_then_finds_it_already_set_up() {
    let p = python("3.12", true);
    let mut fs = FsModel { dirs: vec![], files: vec![] };
    let mut cache = Cache::new();
    let ok = vec![RunOutcome::Success];
    let first = p.up(&ok, &mut fs, &mut cache, Some(s("repo")), &s("/home/proj"), &s("/opt/asdf"));
    assert!(matches!(first, Ok(PythonUpOutcome::VenvCreated(_))));
    let second = p.up(&ok, &mut fs, &mut cache, Some(s("repo")), &s("/home/proj"), &s("/opt/asdf"));
    assert!(matches!(second, Ok(PythonUpOutcome::VenvAlreadySetUp)));
    // the cache merge stayed idempotent across the two runs
    let rec = cache.get_env(&s("repo")).unwrap();
    let count = rec
        .versions
        .iter()
        .filter(|v| v.tool == "python-venv" && v.version == "3.12")
        .count();
    assert_eq!(count, 1);
    let venv_var = rec
        .env_vars
        .iter()
        .find(|(k, _)| k == "VIRTUAL_ENV")
        .map(|(_, v)| v.clone());
    assert_eq!(venv_var, Some(s("proj")));
}

#[test]
fn up_signals_fatal_on_half_existing_venv() {
    let p = python("3.12", true);
    let mut fs = FsModel {
        dirs: vec![path(&["", "home", "proj", ".omni", "venv"])],
        files: vec![],
    };
    let mut cache = Cache::new();
    let r = p.up(
        &vec![RunOutcome::Success],
        &mut fs,
        &mut cache,
        Some(s("repo")),
        &s("/home/proj"),
        &s("/opt/asdf"),
    );
    match r {
        Err(UpError::Fatal(m)) => assert_eq!(m, "a venv dir exists, but it was not set up"),
        other => panic!("expected the fatal signal, got {:?}", other),
    }
}

#[test]
fn down_removes_present_venv_and_delegates() {
    let p = python("3.12", true);
    let venv = path(&["", "home", "proj", ".omni", "venv"]);
    let marker = path(&["", "home", "proj", ".omni", "venv", "pyvenv.cfg"]);
    let mut fs = FsModel {
        dirs: vec![path(&["", "home", "proj"]), venv.clone()],
        files: vec![marker.clone(), path(&["", "home", "proj", "keep"])],
    };
    let r = p.down(&vec![RunOutcome::Success], &mut fs, &s("/home/proj"));
    assert!(r.is_ok());
    assert!(!fs.dir_exists(&venv));
    assert!(!fs.file_exists(&marker));
    assert!(fs.dir_exists(&path(&["", "home", "proj"])));
    assert!(fs.file_exists(&path(&["", "home", "proj", "keep"])));
}

#[test]
fn down_with_absent_venv_only_delegates() {
    let p = python("3.12", true);
    let mut fs = FsModel { dirs: vec![], files: vec![] };
    let r = p.down(&vec![RunOutcome::Failure(s("teardown failed"))], &mut fs, &s("/home/proj"));
    match r {
        Err(UpError::Exec(m)) => assert_eq!(m, "teardown failed"),
        other => panic!("expected the delegated error, got {:?}", other),
    }
}
