//! The commands the tool accepts.

use vstd::prelude::*;

verus! {

/// The parsed command line.
#[derive(Debug)]
pub struct Cli {
    pub command: Commands,
}

/// One command of the tool.
#[derive(Debug)]
pub enum Commands {
    /// Install the binaries, the configuration and the service unit.
    Install,
    /// Remove what the installation wrote.
    Uninstall,
    /// Start the executor; `detached` runs it in a new session in the background.
    Start { detached: bool },
    /// Stop the executor.
    Stop,
    /// Report on the executor's process.
    Status,
    /// Stop every running executor and start a new one.
    Restart,
    /// Switch starting the service on boot on or off.
    EnableOnBoot { activate: bool },
    /// Print the logs.
    ViewLog,
    /// Add a domain.
    AddDomain { name: String, token: String, activated: Option<bool>, txt: Option<String> },
    /// Delete a domain.
    DeleteDomain { name: String },
    /// List the domains.
    ListDomain,
}

} // verus!
