//! Core of a development-environment provisioning tool: per-tool
//! configuration parsing, idempotent install/uninstall planning, and a
//! shared version cache coordinated through an exclusive-access
//! transaction primitive.

pub mod kv;
pub mod config;
pub mod cache;
pub mod fsmodel;
pub mod paths;
pub mod run;
pub mod bundler;
pub mod asdf;
pub mod python;
pub mod tool;
