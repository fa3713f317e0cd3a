use omni_up::bundler::{DownOutcome, UpConfigBundler};
use omni_up::cache::Cache;
use omni_up::config::ConfigValue;
use omni_up::fsmodel::FsModel;
use omni_up::run::{RunOutcome, UpError};

fn s(x: &str) -> String {
    x.to_string()
}

fn path(parts: &[&str]) -> Vec<String> {
    parts.iter().map(|p| s(p)).collect()
}

#[test]
fn from_config_value_bare_string_sets_gemfile_and_default_path() {
    let cv = ConfigValue::Str(s("custom/Gemfile"));
    let b = UpConfigBundler::from_config_value(Some(&cv));
    assert_eq!(b.gemfile, Some(s("custom/Gemfile")));
    assert_eq!(b.path, Some(s("vendor/bundle")));
}

#[test]
fn from_config_value_absent_takes_defaults() {
    let b = UpConfigBundler::from_config_value(None);
    assert_eq!(b.gemfile, None);
    assert_eq!(b.path, Some(s("vendor/bundle")));
}

#[test]
fn from_config_value_table_pulls_both_keys() {
    let cv = ConfigValue::Table(vec![
        (s("gemfile"), ConfigValue::Str(s("sub/Gemfile"))),
        (s("path"), ConfigValue::Str(s("elsewhere"))),
    ]);
    let b = UpConfigBundler::from_config_value(Some(&cv));
    assert_eq!(b.gemfile, Some(s("sub/Gemfile")));
    assert_eq!(b.path, Some(s("elsewhere")));
}

#[test]
fn from_config_value_malformed_fields_fall_back() {
    let cv = ConfigValue::Table(vec![(s("gemfile"), ConfigValue::Bool(true))]);
    let b = UpConfigBundler::from_config_value(Some(&cv));
    assert_eq!(b.gemfile, None);
    assert_eq!(b.path, Some(s("vendor/bundle")));
}

#[test]
fn gemfile_abs_path_resolves_against_root() {
    let b = UpConfigBundler { gemfile: Some(s("sub/Gemfile")), path: None };
    assert_eq!(b.gemfile_abs_path(&s("/home/proj")), "/home/proj/sub/Gemfile");
    let b2 = UpConfigBundler { gemfile: Some(s("/abs/Gemfile")), path: None };
    assert_eq!(b2.gemfile_abs_path(&s("/home/proj")), "/abs/Gemfile");
    let b3 = UpConfigBundler { gemfile: None, path: None };
    assert_eq!(b3.gemfile_abs_path(&s("/home/proj")), "/home/proj/Gemfile");
}

#[test]
fn up_commands_with_path_and_gemfile() {
    let b = UpConfigBundler { gemfile: Some(s("G")), path: Some(s("vendor/bundle")) };
    let cmds = b.up_commands();
    assert_eq!(cmds.len(), 2);
    assert_eq!(cmds[0].program, "bundle");
    assert_eq!(cmds[0].args, vec![s("config"), s("--local"), s("path"), s("vendor/bundle")]);
    assert_eq!(cmds[1].program, "bundle");
    assert_eq!(cmds[1].args, vec![s("install"), s("--gemfile"), s("G")]);
}

#[test]
fn up_commands_minimal() {
    let b = UpConfigBundler { gemfile: None, path: None };
    let cmds = b.up_commands();
    assert_eq!(cmds.len(), 1);
    assert_eq!(cmds[0].args, vec![s("install")]);
}

#[test]
fn up_success_records_bundle_gemfile() {
    let b = UpConfigBundler { gemfile: None, path: Some(s("vendor/bundle")) };
    let mut cache = Cache::new();
    let outcomes = vec![RunOutcome::Success, RunOutcome::Success];
    let r = b.up(&outcomes, &mut cache, Some(s("repo")), &s("/home/proj"));
    assert!(r.is_ok());
    let rec = cache.get_env(&s("repo")).expect("cache entry written");
    let v = rec
        .env_vars
        .iter()
        .find(|(k, _)| k == "BUNDLE_GEMFILE")
        .map(|(_, v)| v.clone());
    assert_eq!(v, Some(s("/home/proj/Gemfile")));
}

#[test]
fn up_install_failure_aborts_and_skips_cache() {
    let b = UpConfigBundler { gemfile: None, path: Some(s("vendor/bundle")) };
    let mut cache = Cache::new();
    let outcomes = vec![RunOutcome::Success, RunOutcome::Failure(s("exit status 1"))];
    let r = b.up(&outcomes, &mut cache, Some(s("repo")), &s("/home/proj"));
    match r {
        Err(UpError::Exec(m)) => assert_eq!(m, "exit status 1"),
        other => panic!("expected an execution error, got {:?}", other),
    }
    assert!(cache.env.is_empty());
}

#[test]
fn up_without_repo_id_still_succeeds_without_cache_write() {
    let b = UpConfigBundler { gemfile: None, path: None };
    let mut cache = Cache::new();
    let outcomes = vec![RunOutcome::Success];
    let r = b.up(&outcomes, &mut cache, None, &s("/home/proj"));
    assert!(r.is_ok());
    assert!(cache.env.is_empty());
}

#[test]
fn down_on_missing_path_reports_nothing_to_do() {
    let b = UpConfigBundler { gemfile: None, path: Some(s("vendor/bundle")) };
    let mut fs = FsModel { dirs: vec![path(&["", "home"])], files: vec![] };
    let cwd = path(&["", "home"]);
    let r = b.down(&mut fs, &cwd);
    assert!(matches!(r, DownOutcome::NothingToDo));
    assert_eq!(r.message(), "skipping (nothing to do)");
    assert_eq!(fs.dirs, vec![path(&["", "home"])]);
    assert!(fs.files.is_empty());
}

#[test]
fn down_removes_tree_and_walks_up_to_first_non_empty_parent() {
    let b = UpConfigBundler { gemfile: None, path: Some(s("vendor/bundle")) };
    let mut fs = FsModel {
        dirs: vec![
            path(&[""]),
            path(&["", "home"]),
            path(&["", "home", "vendor"]),
            path(&["", "home", "vendor", "bundle"]),
            path(&["", "home", "vendor", "bundle", "gems"]),
        ],
        files: vec![
            path(&["", "home", "keep.txt"]),
            path(&["", "home", "vendor", "bundle", "gems", "a.rb"]),
        ],
    };
    let cwd = path(&["", "home"]);
    let r = b.down(&mut fs, &cwd);
    assert!(matches!(r, DownOutcome::Removed));
    // the install tree is gone
    assert!(!fs.dir_exists(&path(&["", "home", "vendor", "bundle"])));
    assert!(!fs.dir_exists(&path(&["", "home", "vendor", "bundle", "gems"])));
    assert!(!fs.file_exists(&path(&["", "home", "vendor", "bundle", "gems", "a.rb"])));
    // the now-empty parent went with it
    assert!(!fs.dir_exists(&path(&["", "home", "vendor"])));
    // the walk stopped at the first non-empty parent
    assert!(fs.dir_exists(&path(&["", "home"])));
    assert!(fs.dir_exists(&path(&[""])));
    assert!(fs.file_exists(&path(&["", "home", "keep.txt"])));
}

#[test]
fn down_keeps_non_empty_parent_chain_intact() {
    let b = UpConfigBundler { gemfile: None, path: Some(s("vendor/bundle")) };
    let mut fs = FsModel {
        dirs: vec![
            path(&["", "home"]),
            path(&["", "home", "vendor"]),
            path(&["", "home", "vendor", "other"]),
            path(&["", "home", "vendor", "bundle"]),
        ],
        files: vec![],
    };
    let cwd = path(&["", "home"]);
    let r = b.down(&mut fs, &cwd);
    assert!(matches!(r, DownOutcome::Removed));
    assert!(!fs.dir_exists(&path(&["", "home", "vendor", "bundle"])));
    // vendor still holds a sibling: the walk must not remove it
    assert!(fs.dir_exists(&path(&["", "home", "vendor"])));
    assert!(fs.dir_exists(&path(&["", "home", "vendor", "other"])));
}

#[test]
fn down_without_configured_path_touches_nothing() {
    let b = UpConfigBundler { gemfile: None, path: None };
    let mut fs = FsModel { dirs: vec![path(&["", "x"])], files: vec![] };
    let cwd = path(&["", "x"]);
    let r = b.down(&mut fs, &cwd);
    assert!(matches!(r, DownOutcome::NothingToDo));
    assert_eq!(fs.dirs, vec![path(&["", "x"])]);
}
