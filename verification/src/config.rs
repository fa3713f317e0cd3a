//! The loosely-typed configuration value that project files supply.
//! Tools read it through optional accessors; a shape the reader does not
//! expect is never an error, it simply yields `None` and the tool falls
//! back to its documented default.

use vstd::prelude::*;
use crate::kv;

verus! {

/// An untyped, hierarchical configuration value: a scalar or a table of
/// named sub-values.
#[derive(Debug)]
pub enum ConfigValue {
    Str(String),
    Bool(bool),
    Table(Vec<(String, ConfigValue)>),
}

impl ConfigValue {
    /// The string content, when the value is a bare string.
    pub fn as_str(&self) -> (r: Option<&String>)
        ensures
            match r {
                Some(s) => self matches ConfigValue::Str(x) && s@ == x@,
                None => !(self matches ConfigValue::Str(_)),
            },
    {
        match self {
            ConfigValue::Str(s) => Some(s),
            _ => None,
        }
    }

    /// The boolean content, when the value is a boolean.
    pub fn as_bool(&self) -> (r: Option<bool>)
        ensures
            match r {
                Some(b) => self matches ConfigValue::Bool(x) && b == x,
                None => !(self matches ConfigValue::Bool(_)),
            },
    {
        match self {
            ConfigValue::Bool(b) => Some(*b),
            _ => None,
        }
    }

    /// The table entries, when the value is a table.
    pub fn as_table(&self) -> (r: Option<&Vec<(String, ConfigValue)>>)
        ensures
            match r {
                Some(t) => self matches ConfigValue::Table(x) && t == x,
                None => !(self matches ConfigValue::Table(_)),
            },
    {
        match self {
            ConfigValue::Table(t) => Some(t),
            _ => None,
        }
    }

    /// What a lookup of `k` in this value yields: the first matching
    /// entry of a table, nothing otherwise.
    pub open spec fn spec_get(self, k: Seq<char>) -> Option<ConfigValue> {
        match self {
            ConfigValue::Table(t) => {
                if kv::has_key(t@, k) {
                    Some(kv::assoc_get(t@, k))
                } else {
                    None
                }
            },
            _ => None,
        }
    }

    /// The sub-value stored under `key`, when this value is a table that
    /// holds one.
    pub fn get(&self, key: &String) -> (r: Option<&ConfigValue>)
        ensures
            match r {
                Some(v) => self.spec_get(key@) matches Some(w) && *v == w,
                None => self.spec_get(key@) is None,
            },
    {
        match self {
            ConfigValue::Table(t) => {
                match kv::find_key(t, key) {
                    Some(i) => Some(&t[i].1),
                    None => None,
                }
            },
            _ => None,
        }
    }
}

/// The version a configuration value asks for: a bare string names it
/// directly, a table names it under `version`; anything else means the
/// latest.
pub open spec fn spec_version_from_config(cv: Option<&ConfigValue>) -> Seq<char> {
    match cv {
        None => "latest"@,
        Some(v) => match v {
            ConfigValue::Str(s) => s@,
            ConfigValue::Table(_) => match v.spec_get("version"@) {
                Some(w) => match w {
                    ConfigValue::Str(s) => s@,
                    _ => "latest"@,
                },
                None => "latest"@,
            },
            _ => "latest"@,
        },
    }
}

/// Read the requested version out of a configuration value, with its
/// default.
pub fn version_from_config(config_value: Option<&ConfigValue>) -> (r: String)
    ensures
        r@ == spec_version_from_config(config_value),
{
    if let Some(cv) = config_value {
        if let Some(s) = cv.as_str() {
            return s.clone();
        }
        match cv.as_table() {
            Some(_) => {
                if let Some(value) = cv.get(&"version".to_owned()) {
                    if let Some(s) = value.as_str() {
                        return s.clone();
                    }
                }
                "latest".to_owned()
            },
            None => "latest".to_owned(),
        }
    } else {
        "latest".to_owned()
    }
}

} // verus!
