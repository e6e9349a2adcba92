//! The Node runtime adapter: locates the interpreter and its package
//! manager inside one installed Node version's directory.

use vstd::prelude::*;
use crate::process::CommandInvocation;
use crate::process::CommandResult;
use crate::process::RunOutcome;
use crate::text::join_path;
use crate::text::join_path_spec;

verus! {

/// Errors of the Node adapter. A spawn failure is deliberately
/// collapsed into the single `FailedExecution` variant; the underlying
/// cause is logged by the caller, not preserved here.
#[derive(Debug, PartialEq, Eq, Clone, Copy)]
pub enum Error {
    FailedExecution,
}

/// The package manager found alongside the Node binary.
#[derive(Debug, PartialEq, Eq, Clone)]
pub struct NPM {
    pub npm_path: String,
}

/// One installed Node version, rooted at a directory.
pub struct WindowsNode {
    pub node_path: String,
}

impl WindowsNode {
    /// A Node adapter rooted at `node_path`.
    pub fn new(node_path: String) -> (r: WindowsNode)
        ensures
            r.node_path == node_path,
    {
        WindowsNode { node_path }
    }

    /// The package manager, at its fixed relative path beside the
    /// Node binary.
    pub fn get_npm(&self) -> (r: NPM)
        ensures
            r.npm_path@ == join_path_spec(self.node_path@, "npm.cmd"@),
    {
        NPM { npm_path: join_path(self.node_path.as_str(), "npm.cmd") }
    }

    /// The invocation that runs the Node interpreter inside the root
    /// directory with the given arguments.
    pub fn exec_invocation(&self, args: Vec<String>) -> (inv: CommandInvocation)
        ensures
            inv.executable@ == join_path_spec(self.node_path@, "node"@),
            inv.args == args,
            inv.env@.len() == 0,
    {
        CommandInvocation {
            executable: join_path(self.node_path.as_str(), "node"),
            args,
            env: Vec::new(),
        }
    }

    /// Maps the outcome of a Node run: a completed run is handed back
    /// whole — the caller interprets the exit status — and any spawn
    /// or decode failure collapses to `FailedExecution`.
    pub fn exec_outcome(&self, run: RunOutcome) -> (r: Result<CommandResult, Error>)
        ensures
            run matches RunOutcome::Completed(res) ==> r == Ok::<CommandResult, Error>(res),
            !(run matches RunOutcome::Completed(_)) ==> r == Err::<CommandResult, Error>(
                Error::FailedExecution,
            ),
    {
        match run {
            RunOutcome::Completed(res) => Ok(res),
            RunOutcome::SpawnFailed(_) => Err(Error::FailedExecution),
            RunOutcome::DecodeFailed => Err(Error::FailedExecution),
        }
    }
}

} // verus!
