use omni_up::cache::Cache;
use omni_up::config::ConfigValue;
use omni_up::fsmodel::FsModel;
use omni_up::paths::{after_last_slash, path_components};
use omni_up::run::{RunOutcome, UpError};
use omni_up::tool::{UpConfigTool, UpContext};

fn s(x: &str) -> String {
    x.to_string()
}

fn tool(name: &str) -> Option<UpConfigTool> {
    UpConfigTool::from_config_value(name, None)
}

#[test]
fn from_config_value_maps_every_supported_name() {
    assert!(matches!(tool("bash"), Some(UpConfigTool::Bash(_))));
    assert!(matches!(tool("bundler"), Some(UpConfigTool::Bundler(_))));
    assert!(matches!(tool("bundle"), Some(UpConfigTool::Bundler(_))));
    assert!(matches!(tool("custom"), Some(UpConfigTool::Custom(_))));
    assert!(matches!(tool("go"), Some(UpConfigTool::Go(_))));
    assert!(matches!(tool("golang"), Some(UpConfigTool::Go(_))));
    assert!(matches!(tool("homebrew"), Some(UpConfigTool::Homebrew(_))));
    assert!(matches!(tool("brew"), Some(UpConfigTool::Homebrew(_))));
    assert!(matches!(tool("nodejs"), Some(UpConfigTool::Nodejs(_))));
    assert!(matches!(tool("node"), Some(UpConfigTool::Nodejs(_))));
    assert!(matches!(tool("python"), Some(UpConfigTool::Python(_))));
    assert!(matches!(tool("ruby"), Some(UpConfigTool::Ruby(_))));
    assert!(matches!(tool("rust"), Some(UpConfigTool::Rust(_))));
}

#[test]
fn from_config_value_rejects_unknown_names() {
    assert!(tool("perl").is_none());
    assert!(tool("").is_none());
    assert!(tool("Bundler").is_none());
    assert!(tool("pythonn").is_none());
}

#[test]
fn from_config_value_hands_the_value_to_the_variant() {
    let cv = ConfigValue::Str(s("my/Gemfile"));
    match UpConfigTool::from_config_value("bundle", Some(&cv)) {
        Some(UpConfigTool::Bundler(b)) => {
            assert_eq!(b.gemfile, Some(s("my/Gemfile")));
            assert_eq!(b.path, Some(s("vendor/bundle")));
        },
        other => panic!("expected the bundler variant, got {:?}", other),
    }
    let pv = ConfigValue::Str(s("3.12"));
    match UpConfigTool::from_config_value("python", Some(&pv)) {
        Some(UpConfigTool::Python(p)) => assert_eq!(p.version, "3.12"),
        other => panic!("expected the python variant, got {:?}", other),
    }
}

#[test]
fn is_available_defaults_to_true_and_probes_for_homebrew() {
    assert!(tool("ruby").unwrap().is_available(false));
    assert!(tool("python").unwrap().is_available(false));
    assert!(tool("brew").unwrap().is_available(true));
    assert!(!tool("brew").unwrap().is_available(false));
}

#[test]
fn asdf_tool_exposes_the_composed_base() {
    let bash = tool("bash").unwrap();
    assert_eq!(bash.asdf_tool().unwrap().name, "bash");
    let node = tool("node").unwrap();
    assert_eq!(node.asdf_tool().unwrap().name, "nodejs");
    let go = tool("go").unwrap();
    assert_eq!(go.asdf_tool().unwrap().name, "golang");
    let py = tool("python").unwrap();
    assert_eq!(py.asdf_tool().unwrap().name, "python");
    assert!(tool("bundler").unwrap().asdf_tool().is_none());
    assert!(tool("custom").unwrap().asdf_tool().is_none());
    assert!(tool("brew").unwrap().asdf_tool().is_none());
}

#[test]
fn dir_comes_from_the_custom_tool_alone() {
    let cv = ConfigValue::Table(vec![(s("dir"), ConfigValue::Str(s("scripts")))]);
    let custom = UpConfigTool::from_config_value("custom", Some(&cv)).unwrap();
    assert_eq!(custom.dir(), Some(s("scripts")));
    assert_eq!(tool("ruby").unwrap().dir(), None);
}

#[test]
fn dispatcher_up_routes_to_the_variant() {
    let ctx = UpContext {
        outcomes: vec![RunOutcome::Success],
        repo_id: Some(s("repo")),
        workdir_root: s("/home/proj"),
        asdf_path: s("/opt/asdf"),
    };
    let mut fs = FsModel { dirs: vec![], files: vec![] };
    let mut cache = Cache::new();
    let ruby = tool("ruby").unwrap();
    assert!(ruby.up(&ctx, &mut fs, &mut cache).is_ok());
    assert!(cache.env.is_empty());

    // the bundler issues two commands: path configuration and install
    let ctx2 = UpContext {
        outcomes: vec![RunOutcome::Success, RunOutcome::Success],
        repo_id: Some(s("repo")),
        workdir_root: s("/home/proj"),
        asdf_path: s("/opt/asdf"),
    };
    let bundler = tool("bundler").unwrap();
    assert!(bundler.up(&ctx2, &mut fs, &mut cache).is_ok());
    assert!(cache.get_env(&s("repo")).is_some());
}

#[test]
fn dispatcher_up_surfaces_the_variant_error() {
    let ctx = UpContext {
        outcomes: vec![RunOutcome::Failure(s("boom"))],
        repo_id: None,
        workdir_root: s("/home/proj"),
        asdf_path: s("/opt/asdf"),
    };
    let mut fs = FsModel { dirs: vec![], files: vec![] };
    let mut cache = Cache::new();
    let go = tool("go").unwrap();
    match go.up(&ctx, &mut fs, &mut cache) {
        Err(UpError::Exec(m)) => assert_eq!(m, "boom"),
        other => panic!("expected an execution error, got {:?}", other),
    }
}

#[test]
fn dispatcher_down_routes_the_python_teardown() {
    let venv: Vec<String> = ["", "home", "proj", ".omni", "venv"]
        .iter()
        .map(|p| s(p))
        .collect();
    let marker: Vec<String> = ["", "home", "proj", ".omni", "venv", "pyvenv.cfg"]
        .iter()
        .map(|p| s(p))
        .collect();
    let mut fs = FsModel { dirs: vec![venv.clone()], files: vec![marker] };
    let ctx = UpContext {
        outcomes: vec![RunOutcome::Success],
        repo_id: Some(s("repo")),
        workdir_root: s("/home/proj"),
        asdf_path: s("/opt/asdf"),
    };
    let py = UpConfigTool::from_config_value(
        "python",
        Some(&ConfigValue::Table(vec![(s("with_venv"), ConfigValue::Bool(true))])),
    )
    .unwrap();
    assert!(py.down(&ctx, &mut fs).is_ok());
    assert!(!fs.dir_exists(&venv));
}

#[test]
fn path_helpers_split_and_take_basenames() {
    assert_eq!(path_components(&s("vendor/bundle")), vec![s("vendor"), s("bundle")]);
    assert_eq!(path_components(&s("/a/b")), vec![s(""), s("a"), s("b")]);
    assert_eq!(path_components(&s("plain")), vec![s("plain")]);
    assert_eq!(after_last_slash(&s("/home/proj")), "proj");
    assert_eq!(after_last_slash(&s("name")), "name");
}

#[test]
fn config_value_accessors_answer_by_shape() {
    let t = ConfigValue::Table(vec![
        (s("a"), ConfigValue::Str(s("x"))),
        (s("b"), ConfigValue::Bool(true)),
    ]);
    assert!(t.as_str().is_none());
    assert!(t.as_table().is_some());
    assert_eq!(t.get(&s("a")).and_then(|v| v.as_str()), Some(&s("x")));
    assert_eq!(t.get(&s("b")).and_then(|v| v.as_bool()), Some(true));
    assert!(t.get(&s("missing")).is_none());
    let b = ConfigValue::Bool(false);
    assert_eq!(b.as_bool(), Some(false));
    assert!(b.get(&s("a")).is_none());
}
