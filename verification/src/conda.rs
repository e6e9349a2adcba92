//! The Conda package/environment manager adapter.
//!
//! The adapter never spawns a process itself: it decides which
//! invocation to run from the installation probe handed in by the
//! caller, and maps every possible run outcome to a typed result.

use vstd::prelude::*;
use crate::process::CommandInvocation;
use crate::process::CommandResult;
use crate::process::InstallDirective;
use crate::process::Platform;
use crate::process::RunOutcome;
use crate::text::join_path;
use crate::text::join_path_spec;
use crate::text::strip_prefix;
use crate::text::strip_prefix_spec;
use crate::text::trim;
use crate::text::trim_spec;
use crate::text::concat2;

verus! {

/// Errors of the Conda adapter, one variant per failure kind.
#[derive(Debug, PartialEq, Eq, Clone)]
pub enum Error {
    /// The configuration holding the Conda root could not be read.
    ConfigError(String),
    /// The distribution could not be downloaded.
    DownloadError(String),
    /// The Conda root directory could not be created.
    CreateCondaDirectory(String),
    /// A target path could not be represented as valid text.
    PathError,
    /// Conda is not installed, so nothing was run.
    NotInstalledError,
    /// Conda is already installed, so nothing was installed.
    CondaAlreadyInstalled,
    /// The download-and-unpack install step failed.
    InstallError(String),
    /// The conda executable could not be spawned; the message
    /// preserves the underlying cause.
    CommandInvokationError(String),
    /// The command ran but exited with a failure status; the full
    /// captured output is carried, not a summary.
    CommandError(CommandResult),
    /// The command ran but its output was not valid UTF-8.
    CommandOutputParsingError,
}

/// An installed Conda, rooted at a directory, on one platform.
pub struct Conda {
    pub conda_path: String,
    pub platform: Platform,
}

/// The executable that the adapter invokes, relative to the root.
pub open spec fn conda_executable_name_spec(p: Platform) -> Seq<char> {
    if p is Windows {
        "_conda"@
    } else {
        "bin/conda"@
    }
}

/// The file whose presence under the root means "installed".
pub open spec fn conda_marker_name_spec(p: Platform) -> Seq<char> {
    if p is Windows {
        "_conda.exe"@
    } else {
        "bin/conda"@
    }
}

/// An installation probe reports installed only when the marker file
/// was seen to exist and be a regular file; `None`, the probe that
/// failed with an I/O error, counts as "not installed".
pub open spec fn is_installed_spec(probe: Option<bool>) -> bool {
    probe == Some(true)
}

/// Every adapter result for one completed or failed run: a spawn
/// failure and an undecodable output have their own errors, a failing
/// exit status carries the full captured output, and a successful run
/// yields the captured stdout.
pub open spec fn command_response_spec(run: RunOutcome) -> Result<String, Error> {
    match run {
        RunOutcome::SpawnFailed(m) => Err(Error::CommandInvokationError(m)),
        RunOutcome::DecodeFailed => Err(Error::CommandOutputParsingError),
        RunOutcome::Completed(res) => if res.success {
            Ok(res.stdout)
        } else {
            Err(Error::CommandError(res))
        },
    }
}

/// What `version` makes of a captured stdout: whitespace trimmed and
/// the literal prefix `conda ` removed.
pub open spec fn conda_version_of(stdout: Seq<char>) -> Seq<char> {
    strip_prefix_spec(trim_spec(stdout), "conda "@)
}

/// The environment directory that `create_env` asks Conda to create.
pub open spec fn create_env_target_spec(conda_path: Seq<char>, name: Seq<char>) -> Seq<char> {
    join_path_spec(join_path_spec(conda_path, "envs"@), name)
}

/// A completed command with a failing exit status is reported as
/// `CommandError` carrying the full captured output, never a summary.
pub proof fn lemma_failed_exit_keeps_output(res: CommandResult)
    requires
        !res.success,
    ensures
        command_response_spec(RunOutcome::Completed(res)) == Err::<String, Error>(
            Error::CommandError(res),
        ),
{
}

/// A probe that errored out counts as "not installed" rather than
/// propagating the error.
pub proof fn lemma_probe_error_means_not_installed()
    ensures
        !is_installed_spec(None),
{
}

impl Conda {
    /// A Conda rooted at `conda_path` for the given platform.
    pub fn new(conda_path: String, platform: Platform) -> (r: Conda)
        ensures
            r.conda_path == conda_path,
            r.platform == platform,
    {
        Conda { conda_path, platform }
    }

    /// The name of the conda executable, relative to the root.
    pub fn get_executable_name(&self) -> (r: &str)
        ensures
            r@ == conda_executable_name_spec(self.platform),
    {
        match self.platform {
            Platform::Windows => "_conda",
            Platform::Unix => "bin/conda",
        }
    }

    /// The path whose file-ness the caller probes before any run.
    pub fn installed_marker_path(&self) -> (r: String)
        ensures
            r@ == join_path_spec(self.conda_path@, conda_marker_name_spec(self.platform)),
    {
        match self.platform {
            Platform::Windows => join_path(self.conda_path.as_str(), "_conda.exe"),
            Platform::Unix => join_path(self.conda_path.as_str(), "bin/conda"),
        }
    }

    /// Whether the probe of the marker path found an installation. An
    /// absent file, a non-file, or any I/O error during the check all
    /// mean "not installed"; the check itself never fails.
    pub fn is_installed(&self, probe: Option<bool>) -> (r: bool)
        ensures
            r == is_installed_spec(probe),
    {
        match probe {
            Some(true) => true,
            _ => false,
        }
    }

    /// The invocation for one conda command, or `NotInstalledError`
    /// before anything is spawned when the probe found no
    /// installation.
    pub fn command_request(&self, args: Vec<String>, probe: Option<bool>) -> (r: Result<
        CommandInvocation,
        Error,
    >)
        ensures
            !is_installed_spec(probe) ==> r == Err::<CommandInvocation, Error>(
                Error::NotInstalledError,
            ),
            is_installed_spec(probe) ==> (r matches Ok(inv) && inv.executable@ == join_path_spec(
                self.conda_path@,
                conda_executable_name_spec(self.platform),
            ) && inv.args == args && inv.env@.len() == 0),
    {
        if !self.is_installed(probe) {
            return Err(Error::NotInstalledError);
        }
        let executable = join_path(self.conda_path.as_str(), self.get_executable_name());
        Ok(CommandInvocation { executable, args, env: Vec::new() })
    }

    /// Maps the outcome of a conda run to the captured stdout or to
    /// the error owed for that outcome.
    pub fn command_response(&self, run: RunOutcome) -> (r: Result<String, Error>)
        ensures
            r == command_response_spec(run),
    {
        match run {
            RunOutcome::SpawnFailed(m) => Err(Error::CommandInvokationError(m)),
            RunOutcome::DecodeFailed => Err(Error::CommandOutputParsingError),
            RunOutcome::Completed(res) => {
                if res.success {
                    Ok(res.stdout)
                } else {
                    Err(Error::CommandError(res))
                }
            },
        }
    }

    /// The invocation that asks Conda for its version.
    pub fn version_request(&self, probe: Option<bool>) -> (r: Result<CommandInvocation, Error>)
        ensures
            !is_installed_spec(probe) ==> r == Err::<CommandInvocation, Error>(
                Error::NotInstalledError,
            ),
            is_installed_spec(probe) ==> (r matches Ok(inv) && inv.executable@ == join_path_spec(
                self.conda_path@,
                conda_executable_name_spec(self.platform),
            ) && inv.args@.len() == 1 && inv.args@[0]@ == "--version"@ && inv.env@.len() == 0),
    {
        let mut args: Vec<String> = Vec::new();
        args.push("--version".to_owned());
        self.command_request(args, probe)
    }

    /// The version label parsed from a run of `conda --version`:
    /// the stdout trimmed and the `conda ` prefix removed.
    pub fn version(&self, run: RunOutcome) -> (r: Result<String, Error>)
        ensures
            command_response_spec(run) matches Err(e) ==> r == Err::<String, Error>(e),
            command_response_spec(run) matches Ok(out) ==> (r matches Ok(v) && v@
                == conda_version_of(out@)),
    {
        match self.command_response(run) {
            Ok(out) => {
                let t = trim(out.as_str());
                Ok(strip_prefix(t.as_str(), "conda "))
            },
            Err(e) => Err(e),
        }
    }

    /// The invocation that creates an isolated environment: it runs
    /// `create -p <root>/envs/<name> python=<python_version>`.
    pub fn create_env(&self, name: &str, python_version: &str, probe: Option<bool>) -> (r: Result<
        CommandInvocation,
        Error,
    >)
        ensures
            !is_installed_spec(probe) ==> r == Err::<CommandInvocation, Error>(
                Error::NotInstalledError,
            ),
            is_installed_spec(probe) ==> (r matches Ok(inv) && inv.executable@ == join_path_spec(
                self.conda_path@,
                conda_executable_name_spec(self.platform),
            ) && inv.args@.len() == 4 && inv.args@[0]@ == "create"@ && inv.args@[1]@ == "-p"@
                && inv.args@[2]@ == create_env_target_spec(self.conda_path@, name@)
                && inv.args@[3]@ == "python="@ + python_version@ && inv.env@.len() == 0),
    {
        let envs_dir = join_path(self.conda_path.as_str(), "envs");
        let target = join_path(envs_dir.as_str(), name);
        let mut args: Vec<String> = Vec::new();
        args.push("create".to_owned());
        args.push("-p".to_owned());
        args.push(target);
        args.push(concat2("python=", python_version));
        self.command_request(args, probe)
    }

    /// The result of a `create_env` run: success when the command
    /// succeeded, else the error owed for the outcome.
    pub fn create_env_outcome(&self, run: RunOutcome) -> (r: Result<(), Error>)
        ensures
            command_response_spec(run) matches Err(e) ==> r == Err::<(), Error>(e),
            command_response_spec(run) is Ok ==> r == Ok::<(), Error>(()),
    {
        match self.command_response(run) {
            Ok(_) => Ok(()),
            Err(e) => Err(e),
        }
    }

    /// The install decision: `CondaAlreadyInstalled` when the probe
    /// found an installation — nothing is installed then — otherwise
    /// the directive to download and unpack into the root.
    pub fn install(&self, probe: Option<bool>) -> (r: Result<InstallDirective, Error>)
        ensures
            is_installed_spec(probe) ==> r == Err::<InstallDirective, Error>(
                Error::CondaAlreadyInstalled,
            ),
            !is_installed_spec(probe) ==> (r matches Ok(d) && d.install_dir@
                == self.conda_path@),
    {
        if self.is_installed(probe) {
            Err(Error::CondaAlreadyInstalled)
        } else {
            Ok(InstallDirective { install_dir: self.conda_path.clone() })
        }
    }
}

} // verus!
