//! The commands of the command line and their arguments. Paths are texts.

use vstd::prelude::*;

verus! {

/// The command line of `aerodb`.
#[derive(Debug, Clone, PartialEq, Eq)]
pub struct Cli {
    pub command: Command,
}

/// The commands.
#[derive(Debug, Clone, PartialEq, Eq)]
#[allow(inconsistent_fields)]
pub enum Command {
    /// Initialize a new data directory.
    Init { config: String },
    /// Boot and serve operations from standard input.
    Start { config: String },
    /// Boot, execute a single query and exit.
    Query { config: String },
    /// Boot, explain a single query and exit.
    Explain { config: String },
    /// Boot and serve over HTTP.
    Serve { config: String, port: u16 },
    /// Control plane commands.
    Control { config: String, action: ControlAction },
    /// Migration commands.
    Migrate { config: String, action: MigrateAction },
    /// Schema commands.
    Schema { config: String, action: SchemaAction },
    /// Deployment commands.
    Deploy { config: String, action: DeployAction },
    /// Show the log.
    Logs { config: String, lines: usize, level: Option<String>, follow: bool },
}

/// The path of the configuration file when none is given.
pub const DEFAULT_CONFIG_PATH: &'static str = "./aerodb.json";

/// The port of the HTTP server when none is given.
pub const DEFAULT_PORT: u16 = 54321;

/// The number of log lines shown when none is given.
pub const DEFAULT_LOG_LINES: usize = 100;

/// Control plane actions.
#[derive(Debug, Clone, PartialEq, Eq)]
#[allow(inconsistent_fields)]
pub enum ControlAction {
    Inspect { target: InspectTarget },
    Diag { target: DiagTarget },
    Promote { replica_id: String, reason: Option<String>, confirm: Option<String> },
    Demote { node_id: String, reason: Option<String>, confirm: Option<String> },
    ForcePromote {
        replica_id: String,
        reason: String,
        acknowledge_risks: String,
        confirm: Option<String>,
    },
}

/// What to inspect.
#[derive(Debug, Clone, PartialEq, Eq)]
pub enum InspectTarget {
    Cluster,
    Node { node_id: String },
    Replication,
    Promotion,
}

/// What to diagnose.
#[derive(Debug, Clone, PartialEq, Eq)]
pub enum DiagTarget {
    Diagnostics { confirm: Option<String> },
    Wal,
    Snapshots,
}

/// Migration actions.
#[derive(Debug, Clone, PartialEq, Eq)]
pub enum MigrateAction {
    Create { name: String },
    Up,
    Down,
    Status,
}

/// Schema actions.
#[derive(Debug, Clone, PartialEq, Eq)]
#[allow(inconsistent_fields)]
pub enum SchemaAction {
    List,
    Show { name: String },
    Create { file: String },
    Types { output: String },
}

/// Deployment actions.
#[derive(Debug, Clone, PartialEq, Eq)]
pub enum DeployAction {
    Docker { output: String },
    K8s { output: String },
    Status,
    Env { output: String },
}

impl Command {
    /// The path of the command's configuration file.
    pub fn config_path(&self) -> (r: &str)
        ensures
            r@ == match *self {
                Command::Init { config } => config@,
                Command::Start { config } => config@,
                Command::Query { config } => config@,
                Command::Explain { config } => config@,
                Command::Serve { config, .. } => config@,
                Command::Control { config, .. } => config@,
                Command::Migrate { config, .. } => config@,
                Command::Schema { config, .. } => config@,
                Command::Deploy { config, .. } => config@,
                Command::Logs { config, .. } => config@,
            },
    {
        match self {
            Command::Init { config } => config.as_str(),
            Command::Start { config } => config.as_str(),
            Command::Query { config } => config.as_str(),
            Command::Explain { config } => config.as_str(),
            Command::Serve { config, .. } => config.as_str(),
            Command::Control { config, .. } => config.as_str(),
            Command::Migrate { config, .. } => config.as_str(),
            Command::Schema { config, .. } => config.as_str(),
            Command::Deploy { config, .. } => config.as_str(),
            Command::Logs { config, .. } => config.as_str(),
        }
    }

    /// Whether the command boots the database before it does its work.
    pub fn needs_boot(&self) -> (r: bool)
        ensures
            r == (*self is Start || *self is Query || *self is Explain || *self is Serve),
    {
        match self {
            Command::Start { .. } => true,
            Command::Query { .. } => true,
            Command::Explain { .. } => true,
            Command::Serve { .. } => true,
            _ => false,
        }
    }
}

} // verus!
