//! Configuration data: the declarative job description and per-run settings.
//!
//! These records are handed to the library already deserialized; the library
//! never parses a configuration file itself.

use vstd::prelude::*;

verus! {

/// Top level structure of the job description: the three ordered task
/// groups, run as a strict sequence of barriers.
#[derive(Debug, Clone)]
pub struct Config {
    pub wiskers: Vec<Wiskers>,
    pub enrichers: Vec<Wiskers>,
    pub reporters: Vec<Wiskers>,
}

/// Top level structure of the artefact declarations.
#[derive(Debug, Clone)]
pub struct ConfigArt {
    pub artefacts: Vec<Artefacts>,
}

/// One task: a command to run against a resolved artefact.
#[derive(Debug, Clone)]
pub struct Wiskers {
    pub name: String,
    pub binary: String,
    pub args: String,
    pub outfolder: String,
    pub input: String,
    pub input_other: String,
    pub outfile: String,
    pub choco: String,
    pub github: String,
    pub web_download: String,
    pub deps_choco: String,
    pub deps_github: String,
    pub para: bool,
    pub script: bool,
    pub script_posh: String,
    pub chk_exists: bool,
    pub valid_path: String,
}

/// One artefact declaration: a unique name, a path template over `{root}`,
/// and an optional legacy template (empty string means none).
#[derive(Debug, Clone)]
pub struct Artefacts {
    pub name: String,
    pub path: String,
    pub legacy: String,
}

/// Immutable per-run settings, cloned into each task's unit of work.
#[derive(Debug, Clone)]
pub struct MainArgs {
    pub out_path: String,
    pub start_date: String,
    pub end_date: String,
    pub tool_path: String,
    pub ioc_file: String,
    pub silent: bool,
    pub out_log: String,
}

/// Settings of a batch run over a list of data sources.
#[derive(Debug, Clone)]
pub struct WhippedArgs {
    pub config: String,
    pub artefacts_config: String,
    pub data_source_list: String,
    pub local_storage: String,
    pub start_date: String,
    pub end_date: String,
    pub ioc_file: String,
    pub in_link: String,
    pub out_link: String,
    pub update: bool,
    pub keep_evidence: bool,
}

} // verus!
