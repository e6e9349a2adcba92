//! The process-runner model: what the library asks the surrounding
//! binary to spawn, and what the runner hands back.
//!
//! The library itself never spawns a process. An adapter builds a
//! [`CommandInvocation`]; the binary runs it, captures and decodes the
//! output, and feeds a [`RunOutcome`] back into the adapter, which maps
//! it to a typed result. The adapters' contracts therefore hold for
//! every possible outcome of the external tool.

use vstd::prelude::*;

verus! {

/// The target platform an adapter was constructed for; it decides the
/// relative locations of the tool executables.
#[derive(Debug, PartialEq, Eq, Structural, Clone, Copy)]
pub enum Platform {
    Windows,
    Unix,
}

/// A single environment-variable override for a spawned process.
/// Override wins over the inherited environment on a key collision;
/// the calling process's own environment is never mutated.
#[derive(Debug, PartialEq, Eq, Clone)]
pub struct EnvVar {
    pub key: String,
    pub value: String,
}

/// An external command, ready to spawn: executable path, ordered
/// argument list, and environment overrides (keys unique).
#[derive(Debug, PartialEq, Eq, Clone)]
pub struct CommandInvocation {
    pub executable: String,
    pub args: Vec<String>,
    pub env: Vec<EnvVar>,
}

/// The captured output of a spawned command: decoded stdout and
/// stderr, whether the exit status was a success, and the raw code.
#[derive(Debug, PartialEq, Eq, Clone)]
pub struct CommandResult {
    pub stdout: String,
    pub stderr: String,
    pub success: bool,
    pub code: i32,
}

/// What the process runner reports back for one invocation.
#[derive(Debug, PartialEq, Eq, Clone)]
pub enum RunOutcome {
    /// The executable spawned, ran to completion, and its output
    /// decoded as UTF-8; the exit status may still be a failure.
    Completed(CommandResult),
    /// The executable could not be spawned (not found, permission
    /// denied); the message preserves the underlying cause.
    SpawnFailed(String),
    /// The executable ran but its captured output was not valid UTF-8.
    DecodeFailed,
}

/// A request to download and unpack a toolchain distribution into a
/// directory; the download itself is the surrounding binary's work.
#[derive(Debug, PartialEq, Eq, Clone)]
pub struct InstallDirective {
    pub install_dir: String,
}

} // verus!
