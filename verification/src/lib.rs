//! Offloads cargo builds to a remote machine: the decisions of the tool,
//! stated over plain values and proved.
//!
//! The library decides and the caller acts. Every function here is a pure
//! function of what it is given: it says which program to start with which
//! arguments, and what follows from how that program ended. Starting the
//! programs, reading the files and the environment is left to the caller.
//!
//! - [`connection`]: host and port of the remote shell.
//! - [`toolchain`]: which toolchain to ask for.
//! - [`command`], [`quoting`]: the remote command line.
//! - [`remote`]: the arguments of the remote shell, and what its exit means.
//! - [`steps`]: the steps of a stage, and which comes next.
//! - [`artifacts`], [`gather`]: what the build left behind.
//! - [`offload`]: the orchestration context and the steps of an invocation.
//! - [`dispatch`]: from the subcommand to its stages and its plan.
//! - [`preflight`]: the checks before anything is offloaded.
//! - [`util`], [`cli`], [`error`], [`text`], [`numeral`]: arguments, the
//!   command line as data, failures, and helpers on strings and numerals.

pub mod artifacts;
pub mod cli;
pub mod command;
pub mod connection;
pub mod dispatch;
pub mod error;
pub mod gather;
pub mod numeral;
pub mod offload;
pub mod preflight;
pub mod quoting;
pub mod remote;
pub mod steps;
pub mod text;
pub mod toolchain;
pub mod util;
