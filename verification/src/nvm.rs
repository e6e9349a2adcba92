//! The Node version-manager adapter: installs Node versions, switches
//! the active one, reports the current version, and resolves a Node
//! runtime adapter for it.

use vstd::prelude::*;
use crate::node::WindowsNode;
use crate::process::CommandInvocation;
use crate::process::CommandResult;
use crate::process::EnvVar;
use crate::process::InstallDirective;
use crate::process::RunOutcome;
use crate::text::concat2;
use crate::text::join_path;
use crate::text::join_path_spec;
use crate::text::strip_prefix;
use crate::text::strip_prefix_spec;
use crate::text::strip_suffix;
use crate::text::strip_suffix_spec;
use crate::text::trim;
use crate::text::trim_spec;

verus! {

/// Errors of the version-manager adapter. `ExecError` deliberately
/// collapses every run failure into one undifferentiated variant.
#[derive(Debug, PartialEq, Eq, Clone)]
pub enum Error {
    /// The manager is not installed, so nothing was run.
    NotInstalled,
    /// Installing Node through the manager failed; the message
    /// preserves the underlying cause.
    InstallError(String),
    /// A run of the manager failed.
    ExecError,
    /// The current-version output could not be read.
    ExecCurrentError,
}

/// The version manager, rooted at its installation directory.
pub struct WindowsNVM {
    pub nvm_path: String,
}

/// The marker that denotes the currently active entry in the
/// manager's list of installed versions.
pub open spec fn active_marker_spec() -> Seq<char> {
    "* "@
}

/// The platform-architecture annotation that the manager appends to
/// the active entry.
pub open spec fn arch_annotation_spec() -> Seq<char> {
    " (Currently using 64-bit executable)"@
}

/// The normalized version label parsed from the manager's
/// list-installed output: the stdout is trimmed, the active-entry
/// marker and the architecture annotation are stripped, and the
/// remainder is normalized to exactly one leading `v`.
pub open spec fn nvm_version_of(stdout: Seq<char>) -> Seq<char> {
    "v"@ + strip_prefix_spec(
        strip_suffix_spec(
            strip_prefix_spec(trim_spec(stdout), active_marker_spec()),
            arch_annotation_spec(),
        ),
        "v"@,
    )
}

/// An installation probe that errored out, reported as `false` by the
/// caller, counts as "not installed" rather than failing the check.
pub open spec fn nvm_installed_spec(root_exists: bool) -> bool {
    root_exists
}

impl WindowsNVM {
    /// A version-manager adapter rooted at `nvm_path`.
    pub fn new(nvm_path: String) -> (r: WindowsNVM)
        ensures
            r.nvm_path == nvm_path,
    {
        WindowsNVM { nvm_path }
    }

    /// The manager executable inside the installation root.
    pub fn get_executable_path(&self) -> (r: String)
        ensures
            r@ == join_path_spec(self.nvm_path@, "nvm.exe"@),
    {
        join_path(self.nvm_path.as_str(), "nvm.exe")
    }

    /// Whether the installation root was seen to exist. The check
    /// looks at the root directory only, not at the manager binary
    /// itself — a knowingly weak check, kept as the tool has it — and
    /// a probe that errored out counts as absent.
    pub fn is_installed(&self, root_exists: bool) -> (r: bool)
        ensures
            r == nvm_installed_spec(root_exists),
    {
        root_exists
    }

    /// The install decision: already installed means nothing is
    /// installed and the error says so; otherwise the directive to
    /// download and unpack the distribution into the root.
    pub fn install(&self, root_exists: bool) -> (r: Result<InstallDirective, String>)
        ensures
            nvm_installed_spec(root_exists) ==> (r matches Err(m) && m@
                == "NVM already installed"@),
            !nvm_installed_spec(root_exists) ==> (r matches Ok(d) && d.install_dir@
                == self.nvm_path@),
    {
        if self.is_installed(root_exists) {
            Err("NVM already installed".to_owned())
        } else {
            Ok(InstallDirective { install_dir: self.nvm_path.clone() })
        }
    }

    /// The invocation for one run of the manager: its executable, the
    /// given arguments, and the one environment override pointing the
    /// manager at its home directory. Not installed means nothing is
    /// spawned and `NotInstalled` is returned instead.
    pub fn exec_invocation(&self, args: Vec<String>, root_exists: bool) -> (r: Result<
        CommandInvocation,
        Error,
    >)
        ensures
            !nvm_installed_spec(root_exists) ==> r == Err::<CommandInvocation, Error>(
                Error::NotInstalled,
            ),
            nvm_installed_spec(root_exists) ==> (r matches Ok(inv) && inv.executable@
                == join_path_spec(self.nvm_path@, "nvm.exe"@) && inv.args == args
                && inv.env@.len() == 1 && inv.env@[0].key@ == "NVM_HOME"@
                && inv.env@[0].value@ == self.nvm_path@),
    {
        if !self.is_installed(root_exists) {
            return Err(Error::NotInstalled);
        }
        let mut env: Vec<EnvVar> = Vec::new();
        env.push(EnvVar { key: "NVM_HOME".to_owned(), value: self.nvm_path.clone() });
        Ok(CommandInvocation { executable: self.get_executable_path(), args, env })
    }

    /// Maps the outcome of a manager run: a completed run is handed
    /// back whole — callers interpret the exit status — and any spawn
    /// or decode failure collapses to `ExecError`.
    pub fn exec_outcome(&self, run: RunOutcome) -> (r: Result<CommandResult, Error>)
        ensures
            run matches RunOutcome::Completed(res) ==> r == Ok::<CommandResult, Error>(res),
            !(run matches RunOutcome::Completed(_)) ==> r == Err::<CommandResult, Error>(
                Error::ExecError,
            ),
    {
        match run {
            RunOutcome::Completed(res) => Ok(res),
            RunOutcome::SpawnFailed(_) => Err(Error::ExecError),
            RunOutcome::DecodeFailed => Err(Error::ExecError),
        }
    }

    /// The invocation that installs the latest Node version through
    /// the manager: `install latest`.
    pub fn install_node_invocation(&self, root_exists: bool) -> (r: Result<
        CommandInvocation,
        Error,
    >)
        ensures
            !nvm_installed_spec(root_exists) ==> r == Err::<CommandInvocation, Error>(
                Error::NotInstalled,
            ),
            nvm_installed_spec(root_exists) ==> (r matches Ok(inv) && inv.executable@
                == join_path_spec(self.nvm_path@, "nvm.exe"@) && inv.args@.len() == 2
                && inv.args@[0]@ == "install"@ && inv.args@[1]@ == "latest"@
                && inv.env@.len() == 1 && inv.env@[0].key@ == "NVM_HOME"@
                && inv.env@[0].value@ == self.nvm_path@),
    {
        let mut args: Vec<String> = Vec::new();
        args.push("install".to_owned());
        args.push("latest".to_owned());
        self.exec_invocation(args, root_exists)
    }

    /// After `install latest` ran, the install step either failed —
    /// `InstallError` preserving the cause — or continues by
    /// activating the installed version with `use latest`.
    pub fn install_node_continue(&self, run: RunOutcome) -> (r: Result<CommandInvocation, Error>)
        ensures
            run matches RunOutcome::SpawnFailed(m) ==> r == Err::<CommandInvocation, Error>(
                Error::InstallError(m),
            ),
            run is DecodeFailed ==> (r matches Err(e) && e matches Error::InstallError(m) && m@
                == "output was not valid UTF-8"@),
            run matches RunOutcome::Completed(_) ==> (r matches Ok(inv) && inv.executable@
                == join_path_spec(self.nvm_path@, "nvm.exe"@) && inv.args@.len() == 2
                && inv.args@[0]@ == "use"@ && inv.args@[1]@ == "latest"@ && inv.env@.len() == 1
                && inv.env@[0].key@ == "NVM_HOME"@ && inv.env@[0].value@ == self.nvm_path@),
    {
        match run {
            RunOutcome::SpawnFailed(m) => Err(Error::InstallError(m)),
            RunOutcome::DecodeFailed => Err(
                Error::InstallError("output was not valid UTF-8".to_owned()),
            ),
            RunOutcome::Completed(_) => {
                let mut args: Vec<String> = Vec::new();
                args.push("use".to_owned());
                args.push("latest".to_owned());
                self.exec_invocation(args, true)
            },
        }
    }

    /// After `use latest` ran: success when the run completed, else
    /// `ExecError`.
    pub fn install_node_finish(&self, run: RunOutcome) -> (r: Result<(), Error>)
        ensures
            run matches RunOutcome::Completed(_) ==> r == Ok::<(), Error>(()),
            !(run matches RunOutcome::Completed(_)) ==> r == Err::<(), Error>(Error::ExecError),
    {
        match run {
            RunOutcome::Completed(_) => Ok(()),
            RunOutcome::SpawnFailed(_) => Err(Error::ExecError),
            RunOutcome::DecodeFailed => Err(Error::ExecError),
        }
    }

    /// The invocation that lists the installed versions: the current
    /// version is parsed from its output.
    pub fn current_version_invocation(&self, root_exists: bool) -> (r: Result<
        CommandInvocation,
        Error,
    >)
        ensures
            !nvm_installed_spec(root_exists) ==> r == Err::<CommandInvocation, Error>(
                Error::NotInstalled,
            ),
            nvm_installed_spec(root_exists) ==> (r matches Ok(inv) && inv.executable@
                == join_path_spec(self.nvm_path@, "nvm.exe"@) && inv.args@.len() == 2
                && inv.args@[0]@ == "list"@ && inv.args@[1]@ == "installed"@
                && inv.env@.len() == 1 && inv.env@[0].key@ == "NVM_HOME"@
                && inv.env@[0].value@ == self.nvm_path@),
    {
        let mut args: Vec<String> = Vec::new();
        args.push("list".to_owned());
        args.push("installed".to_owned());
        self.exec_invocation(args, root_exists)
    }

    /// The normalized current version parsed from a `list installed`
    /// run: a spawn failure or a failing exit is `ExecError`, an
    /// unreadable output is `ExecCurrentError`, and a successful run
    /// yields the label that `nvm_version_of` describes.
    pub fn current_node_version(&self, run: RunOutcome) -> (r: Result<String, Error>)
        ensures
            run matches RunOutcome::SpawnFailed(_) ==> r == Err::<String, Error>(Error::ExecError),
            run is DecodeFailed ==> r == Err::<String, Error>(Error::ExecCurrentError),
            run matches RunOutcome::Completed(res) ==> (if res.success {
                r matches Ok(v) && v@ == nvm_version_of(res.stdout@)
            } else {
                r == Err::<String, Error>(Error::ExecError)
            }),
    {
        match run {
            RunOutcome::SpawnFailed(_) => Err(Error::ExecError),
            RunOutcome::DecodeFailed => Err(Error::ExecCurrentError),
            RunOutcome::Completed(res) => {
                if !res.success {
                    return Err(Error::ExecError);
                }
                let t = trim(res.stdout.as_str());
                let unmarked = strip_prefix(t.as_str(), "* ");
                let unannotated = strip_suffix(unmarked.as_str(), " (Currently using 64-bit executable)");
                let bare = strip_prefix(unannotated.as_str(), "v");
                Ok(concat2("v", bare.as_str()))
            },
        }
    }

    /// The directory in which the given Node version is expected.
    pub fn get_node_version_dir(&self, version: &str) -> (r: String)
        ensures
            r@ == join_path_spec(self.nvm_path@, version@),
    {
        join_path(self.nvm_path.as_str(), version)
    }

    /// The decision after probing the resolved version's directory:
    /// install Node first when it is missing, else go straight to
    /// re-resolving the current version.
    pub fn get_node_after_check(&self, dir_exists: bool) -> (r: GetNodeStep)
        ensures
            dir_exists ==> r == GetNodeStep::Resolve,
            !dir_exists ==> r == GetNodeStep::InstallNode,
    {
        if dir_exists {
            GetNodeStep::Resolve
        } else {
            GetNodeStep::InstallNode
        }
    }

    /// The Node runtime adapter for the re-resolved current version,
    /// rooted at that version's directory.
    pub fn get_node(&self, version: &str) -> (node: WindowsNode)
        ensures
            node.node_path@ == join_path_spec(self.nvm_path@, version@),
    {
        WindowsNode::new(self.get_node_version_dir(version))
    }
}

/// The next step of the lazy, self-healing Node resolution.
#[derive(Debug, PartialEq, Eq, Structural, Clone, Copy)]
pub enum GetNodeStep {
    /// The resolved version is missing on disk: install Node first.
    InstallNode,
    /// The version is present: re-resolve and build the adapter.
    Resolve,
}

} // verus!
