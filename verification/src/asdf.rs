//! The version-manager-backed base tool that several tools compose: a
//! named tool at a requested version.  The install and teardown work
//! itself is the version manager's; the library states only what it
//! decides about the reported outcome.

use vstd::prelude::*;
use crate::config::{version_from_config, spec_version_from_config, ConfigValue};
use crate::run::{outcome_at, outcome_msg, outcome_ok, RunOutcome, UpError};

verus! {

/// A tool handled through the version manager: its name, the requested
/// version, and, for tools installed from elsewhere, the plugin source.
#[derive(Debug, Clone)]
pub struct UpConfigAsdfBase {
    pub name: String,
    pub version: String,
    pub install_url: Option<String>,
}

impl UpConfigAsdfBase {
    /// A base tool for `tool` at `version`.
    pub fn new(tool: &str, version: &str) -> (r: Self)
        ensures
            r.name@ == tool@,
            r.version@ == version@,
            r.install_url is None,
    {
        UpConfigAsdfBase { name: tool.to_owned(), version: version.to_owned(), install_url: None }
    }

    /// Parse the requested version out of the configuration value.
    pub fn from_config_value(tool: &str, config_value: Option<&ConfigValue>) -> (r: Self)
        ensures
            r.name@ == tool@,
            r.version@ == spec_version_from_config(config_value),
            r.install_url is None,
    {
        let version = version_from_config(config_value);
        UpConfigAsdfBase { name: tool.to_owned(), version, install_url: None }
    }

    /// As `from_config_value`, with the plugin fetched from `url`.
    pub fn from_config_value_with_url(
        tool: &str,
        url: &str,
        config_value: Option<&ConfigValue>,
    ) -> (r: Self)
        ensures
            r.name@ == tool@,
            r.version@ == spec_version_from_config(config_value),
            r.install_url matches Some(u) && u@ == url@,
    {
        let version = version_from_config(config_value);
        UpConfigAsdfBase {
            name: tool.to_owned(),
            version,
            install_url: Some(url.to_owned()),
        }
    }

    /// The requested version.
    pub fn version(&self) -> (r: &String)
        ensures
            r == self.version,
    {
        &self.version
    }

    /// Install: the version manager does the work; its reported
    /// outcome decides, and a failure carries the runner's detail.
    pub fn up(&self, outcomes: &Vec<RunOutcome>) -> (r: Result<(), UpError>)
        ensures
            match r {
                Ok(_) => outcome_ok(outcomes@, 0),
                Err(e) => {
                    &&& !outcome_ok(outcomes@, 0)
                    &&& e matches UpError::Exec(m) && m@ == outcome_msg(outcomes@, 0)
                },
            },
    {
        outcome_at(outcomes, 0)
    }

    /// Teardown, judged the same way as the install.
    pub fn down(&self, outcomes: &Vec<RunOutcome>) -> (r: Result<(), UpError>)
        ensures
            match r {
                Ok(_) => outcome_ok(outcomes@, 0),
                Err(e) => {
                    &&& !outcome_ok(outcomes@, 0)
                    &&& e matches UpError::Exec(m) && m@ == outcome_msg(outcomes@, 0)
                },
            },
    {
        outcome_at(outcomes, 0)
    }
}

} // verus!
