use omni_up::cache::{Cache, CacheMutation, UpEnvironment, UpVersion};

fn s(x: &str) -> String {
    x.to_string()
}

fn record(vars: Vec<(&str, &str)>, versions: Vec<(&str, &str)>) -> UpEnvironment {
    UpEnvironment {
        env_vars: vars.into_iter().map(|(k, v)| (s(k), s(v))).collect(),
        versions: versions
            .into_iter()
            .map(|(t, v)| UpVersion { tool: s(t), version: s(v) })
            .collect(),
    }
}

fn get<'a>(c: &'a Cache, rid: &str) -> Option<&'a UpEnvironment> {
    c.get_env(&s(rid))
}

fn var<'a>(rec: &'a UpEnvironment, key: &str) -> Option<&'a str> {
    rec.env_vars.iter().find(|(k, _)| k == key).map(|(_, v)| v.as_str())
}

#[test]
fn put_record_and_read_back_same_transaction_boundary() {
    let mut c = Cache::new();
    let rec = record(vec![("A", "1"), ("B", "2")], vec![("python-venv", "3.12")]);
    let changed = c.exclusive(
        CacheMutation::PutRecord { repo_id: s("repo-1"), record: rec },
        100,
    );
    assert!(changed);
    assert_eq!(c.updated_at, 100);
    let back = get(&c, "repo-1").expect("record must be there");
    assert_eq!(back.env_vars, vec![(s("A"), s("1")), (s("B"), s("2"))]);
    assert_eq!(back.versions.len(), 1);
    assert_eq!(back.versions[0].tool, "python-venv");
    assert_eq!(back.versions[0].version, "3.12");
}

#[test]
fn round_trip_survives_second_caller() {
    // two independent exclusive-access calls stand for two processes
    let mut c = Cache::new();
    let rec = record(vec![("KEY", "value")], vec![("ruby", "3.3")]);
    c.exclusive(CacheMutation::PutRecord { repo_id: s("repo-a"), record: rec }, 1);
    // a second caller touches a different repository
    c.exclusive(
        CacheMutation::SetEnvVar {
            repo_id: Some(s("repo-b")),
            key: s("BUNDLE_GEMFILE"),
            value: s("/w/Gemfile"),
        },
        2,
    );
    let back = get(&c, "repo-a").expect("record must still be there");
    assert_eq!(back.env_vars, vec![(s("KEY"), s("value"))]);
    assert_eq!(back.versions.len(), 1);
    assert_eq!(back.versions[0].tool, "ruby");
    assert_eq!(back.versions[0].version, "3.3");
}

#[test]
fn concurrent_inserts_of_different_keys_lose_nothing() {
    let mut c = Cache::new();
    let ra = record(vec![("A", "1")], vec![]);
    let rb = record(vec![("B", "2")], vec![]);
    let ch1 = c.exclusive(CacheMutation::PutRecord { repo_id: s("repo-a"), record: ra }, 10);
    let ch2 = c.exclusive(CacheMutation::PutRecord { repo_id: s("repo-b"), record: rb }, 20);
    assert!(ch1 && ch2);
    assert_eq!(c.updated_at, 20);
    let a = get(&c, "repo-a").expect("first insert kept");
    let b = get(&c, "repo-b").expect("second insert kept");
    assert_eq!(var(a, "A"), Some("1"));
    assert_eq!(var(b, "B"), Some("2"));
}

#[test]
fn set_env_var_without_repo_is_a_no_op() {
    let mut c = Cache::new();
    let changed = c.exclusive(
        CacheMutation::SetEnvVar { repo_id: None, key: s("K"), value: s("V") },
        7,
    );
    assert!(!changed);
    assert_eq!(c.updated_at, 0);
    assert!(c.env.is_empty());
}

#[test]
fn set_env_var_replaces_existing_binding() {
    let mut c = Cache::new();
    c.exclusive(
        CacheMutation::SetEnvVar {
            repo_id: Some(s("r")),
            key: s("BUNDLE_GEMFILE"),
            value: s("/one"),
        },
        1,
    );
    c.exclusive(
        CacheMutation::SetEnvVar {
            repo_id: Some(s("r")),
            key: s("BUNDLE_GEMFILE"),
            value: s("/two"),
        },
        2,
    );
    let rec = get(&c, "r").unwrap();
    assert_eq!(rec.env_vars.len(), 1);
    assert_eq!(var(rec, "BUNDLE_GEMFILE"), Some("/two"));
}

#[test]
fn venv_merge_is_idempotent() {
    let mut c = Cache::new();
    let m = |ver: &str| CacheMutation::MergeVenv {
        repo_id: Some(s("repo")),
        version: s(ver),
        venv_name: s("proj"),
        venv_path: s("/home/proj/.omni/venv"),
    };
    let first = c.exclusive(m("3.12.1"), 1);
    let second = c.exclusive(m("3.12.1"), 2);
    assert!(first);
    assert!(!second);
    assert_eq!(c.updated_at, 1);
    let rec = get(&c, "repo").unwrap();
    let count = rec
        .versions
        .iter()
        .filter(|v| v.tool == "python-venv" && v.version == "3.12.1")
        .count();
    assert_eq!(count, 1);
    assert_eq!(var(rec, "VIRTUAL_ENV"), Some("proj"));
    assert_eq!(var(rec, "__omni_python_venv_path"), Some("/home/proj/.omni/venv"));
}

#[test]
fn venv_merge_with_new_version_appends_again() {
    let mut c = Cache::new();
    let m = |ver: &str| CacheMutation::MergeVenv {
        repo_id: Some(s("repo")),
        version: s(ver),
        venv_name: s("proj"),
        venv_path: s("/p"),
    };
    assert!(c.exclusive(m("3.11"), 1));
    assert!(c.exclusive(m("3.12"), 2));
    let rec = get(&c, "repo").unwrap();
    assert_eq!(rec.versions.len(), 2);
    assert_eq!(rec.versions[0].version, "3.11");
    assert_eq!(rec.versions[1].version, "3.12");
}

#[test]
fn merge_preserves_other_repositories_and_other_vars() {
    let mut c = Cache::new();
    let other = record(vec![("X", "y")], vec![("golang", "1.22")]);
    c.exclusive(CacheMutation::PutRecord { repo_id: s("other"), record: other }, 1);
    c.exclusive(
        CacheMutation::SetEnvVar { repo_id: Some(s("repo")), key: s("A"), value: s("1") },
        2,
    );
    c.exclusive(
        CacheMutation::MergeVenv {
            repo_id: Some(s("repo")),
            version: s("3.12"),
            venv_name: s("n"),
            venv_path: s("/p"),
        },
        3,
    );
    let o = get(&c, "other").unwrap();
    assert_eq!(var(o, "X"), Some("y"));
    assert_eq!(o.versions.len(), 1);
    let r = get(&c, "repo").unwrap();
    assert_eq!(var(r, "A"), Some("1"));
    assert_eq!(var(r, "VIRTUAL_ENV"), Some("n"));
}
