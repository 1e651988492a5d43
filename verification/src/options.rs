//! The options that the process was started with, as plain values.

use vstd::prelude::*;

verus! {

/// When to colour the log output.
#[derive(Clone, Copy, Debug, PartialEq, Eq, Structural)]
pub enum Color {
    /// Where the standard output is a terminal.
    Auto,
    Always,
    Never,
}

/// The format of the log output.
#[derive(Clone, Copy, Debug, PartialEq, Eq, Structural)]
pub enum LogFormat {
    Text,
    Json,
}

/// The format of a configuration file.
#[derive(Clone, Copy, Debug, PartialEq, Eq, Structural)]
pub enum Format {
    Toml,
    Json,
    Yaml,
}

/// A one-shot mode of the process: it runs in place of the pipeline.
#[derive(Clone, Copy, Debug, PartialEq, Eq, Structural)]
pub enum SubCommand {
    /// Validate the configuration.
    Validate,
    /// List the component types.
    List,
    /// Run the unit tests of a configuration.
    Test,
    /// Generate a configuration template.
    Generate,
    /// Show the live topology.
    Top,
    /// Control the service of the operating system.
    Service,
    /// Run the command line of the remap language.
    Vrl,
}

/// A configuration file: its path, and its format where that was given.
#[derive(Debug, PartialEq, Eq)]
pub struct ConfigPath {
    pub path: String,
    pub format: Option<Format>,
}

impl Clone for ConfigPath {
    /// The same file.
    fn clone(&self) -> (r: Self)
        ensures
            r == *self,
    {
        ConfigPath { path: self.path.clone(), format: self.format }
    }
}

/// The options of the pipeline itself.
#[derive(Debug)]
pub struct RootOpts {
    /// The configuration files as they were given.
    pub config_paths: Vec<ConfigPath>,
    /// Whether every health check must pass for a topology to start.
    pub require_healthy: bool,
    /// The number of worker threads, where it was given.
    pub threads: Option<usize>,
    pub color: Color,
    pub log_format: LogFormat,
    /// Whether to reload when a configuration file changes.
    pub watch_config: bool,
}

/// The options of the process.
#[derive(Debug)]
pub struct Opts {
    pub root: RootOpts,
    /// The one-shot mode to run, if any.
    pub sub_command: Option<SubCommand>,
    /// The log level that the command line asks for.
    pub log_level: String,
}

/// The options of the administrative server, as the configuration gives them.
#[derive(Clone, Copy, Debug, PartialEq, Eq, Structural)]
pub struct ApiOptions {
    pub enabled: bool,
    pub playground: bool,
}

} // verus!
