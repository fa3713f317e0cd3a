use omni_up::asdf::UpConfigAsdfBase;
use omni_up::cache::Cache;
use omni_up::config::{version_from_config, ConfigValue};
use omni_up::paths::{after_last_slash, path_components};
use omni_up::run::{RunOutcome, UpError};

fn s(x: &str) -> String {
    x.to_string()
}

#[test]
fn asdf_base_carries_name_and_version() {
    let a = UpConfigAsdfBase::new("ruby", "3.3.0");
    assert_eq!(a.name, "ruby");
    assert_eq!(*a.version(), s("3.3.0"));
    assert!(a.install_url.is_none());
    let cv = ConfigValue::Str(s("3.2"));
    let b = UpConfigAsdfBase::from_config_value("ruby", Some(&cv));
    assert_eq!(b.version, "3.2");
    let c = UpConfigAsdfBase::from_config_value_with_url("bash", "https://example.com/p", None);
    assert_eq!(c.version, "latest");
    assert_eq!(c.install_url, Some(s("https://example.com/p")));
}

#[test]
fn asdf_base_up_and_down_judge_the_reported_outcome() {
    let a = UpConfigAsdfBase::new("ruby", "3.3.0");
    assert!(a.up(&vec![RunOutcome::Success]).is_ok());
    match a.up(&vec![RunOutcome::Failure(s("plugin missing"))]) {
        Err(UpError::Exec(m)) => assert_eq!(m, "plugin missing"),
        other => panic!("expected an execution error, got {:?}", other),
    }
    match a.down(&vec![]) {
        Err(UpError::Exec(m)) => assert_eq!(m, "command was not run"),
        other => panic!("expected an execution error, got {:?}", other),
    }
}

#[test]
fn version_from_config_reads_string_table_or_default() {
    assert_eq!(version_from_config(None), "latest");
    let bare = ConfigValue::Str(s("1.22"));
    assert_eq!(version_from_config(Some(&bare)), "1.22");
    let table = ConfigValue::Table(vec![(s("version"), ConfigValue::Str(s("1.21")))]);
    assert_eq!(version_from_config(Some(&table)), "1.21");
    let odd = ConfigValue::Bool(true);
    assert_eq!(version_from_config(Some(&odd)), "latest");
}

#[test]
fn path_splitting_keeps_empty_components() {
    assert_eq!(path_components(&s("")), vec![s("")]);
    assert_eq!(path_components(&s("/")), vec![s(""), s("")]);
    assert_eq!(path_components(&s("a//b")), vec![s("a"), s(""), s("b")]);
    assert_eq!(after_last_slash(&s("/a/b/")), "");
    assert_eq!(after_last_slash(&s("")), "");
}

#[test]
fn empty_cache_answers_no_record() {
    let c = Cache::new();
    assert!(c.get_env(&s("anything")).is_none());
    assert_eq!(c.updated_at, 0);
    assert!(c.env.is_empty());
}
