//! Run-time options of the backup command.
use vstd::prelude::*;

verus! {

/// The options one invocation of the backup command was given.
///
/// Argument parsing happens outside the library; this is the parsed result.
#[derive(Debug)]
pub struct Cli {
    /// Path of the configuration file (`backup.toml` unless told otherwise).
    pub config: String,
    /// Subcommand to run; `None` runs the backup pipeline.
    pub command: Option<Subcommand>,
    /// Print the resolved configuration and stop.
    pub print_config: bool,
    /// Skip the mount stage even when a share is configured.
    pub no_mount: bool,
    /// Skip the forget and compact stages.
    pub no_prune: bool,
    /// Skip the repository integrity check.
    pub no_check: bool,
    /// Run the backup engine and directory creation through `doas`.
    pub sudo: bool,
}

/// Explicit subcommands; without one the backup pipeline runs.
#[derive(Debug, Clone, Copy, PartialEq, Eq, Structural)]
pub enum Subcommand {
    /// Scaffold a `backup.toml` in the current directory.
    Init,
}

} // verus!
