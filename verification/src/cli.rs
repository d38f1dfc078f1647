//! The parsed command line, as plain data.

use vstd::prelude::*;

verus! {

/// What the user asked for.
#[derive(Debug, Clone, PartialEq, Eq)]
pub enum Commands {
    /// Build the project on the remote machine and copy the binaries back.
    Build { args: Vec<String> },
    /// Build remotely, copy the binaries, and run one of them locally.
    Run { args: Vec<String> },
    /// The same as `Run`, under its longer name.
    RunLocal { args: Vec<String> },
    /// Run the project on the remote machine, with optional port forwarding.
    RunRemote { args: Vec<String> },
    /// Run the tests on the remote machine.
    Test { args: Vec<String> },
    /// Run the linter on the remote machine.
    Clippy { args: Vec<String> },
    /// Hand the arguments to the remote toolchain manager.
    Toolchain { args: Vec<String> },
    /// Remove the remote working directory and the local mirror.
    Clean,
}

/// The global flags and the subcommand.
#[derive(Debug, Clone, PartialEq, Eq)]
pub struct Cli {
    pub command: Commands,
    /// `[user@]host[:port]`.
    pub host: Option<String>,
    /// The port of the remote shell; wins over a port written in `host`.
    pub port: Option<u16>,
    /// The target triple to build for.
    pub target: Option<String>,
    /// `NAME=value` assignments for the remote build.
    pub env_vars: Vec<String>,
    /// Whether to copy the heavy intermediate directories as well.
    pub copy_all_artifacts: bool,
    /// `local[:remote]` port-forward specifications.
    pub forward_ports: Vec<String>,
}

} // verus!
