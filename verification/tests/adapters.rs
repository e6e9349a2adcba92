use modcli::cli::run;
use modcli::cli::CliCommand;
use modcli::cli::CommandError;
use modcli::conda::Conda;
use modcli::conda::Error;
use modcli::node::WindowsNode;
use modcli::node::Error as NodeError;
use modcli::nvm::Error as NvmError;
use modcli::nvm::GetNodeStep;
use modcli::nvm::WindowsNVM;
use modcli::process::CommandResult;
use modcli::process::Platform;
use modcli::process::RunOutcome;

fn completed(stdout: &str, success: bool, code: i32) -> RunOutcome {
    RunOutcome::Completed(CommandResult {
        stdout: stdout.to_string(),
        stderr: String::new(),
        success,
        code,
    })
}

fn unix_conda() -> Conda {
    Conda::new("/opt/conda".to_string(), Platform::Unix)
}

fn nvm() -> WindowsNVM {
    WindowsNVM::new("/opt/nvm".to_string())
}

#[test]
fn conda_is_installed_false_when_marker_absent() {
    let conda = unix_conda();
    assert!(!conda.is_installed(Some(false)));
    assert!(conda.is_installed(Some(true)));
}

#[test]
fn conda_is_installed_false_on_probe_error() {
    // An I/O error during the existence check counts as not installed.
    let conda = unix_conda();
    assert!(!conda.is_installed(None));
}

#[test]
fn nvm_is_installed_mirrors_root_existence() {
    let nvm = nvm();
    assert!(!nvm.is_installed(false));
    assert!(nvm.is_installed(true));
}

#[test]
fn conda_marker_and_executable_paths() {
    let conda = unix_conda();
    assert_eq!(conda.installed_marker_path(), "/opt/conda/bin/conda");
    assert_eq!(conda.get_executable_name(), "bin/conda");
    let win = Conda::new("C:/conda".to_string(), Platform::Windows);
    assert_eq!(win.installed_marker_path(), "C:/conda/_conda.exe");
    assert_eq!(win.get_executable_name(), "_conda");
}

#[test]
fn conda_command_refused_when_not_installed() {
    let conda = unix_conda();
    let r = conda.command_request(vec!["info".to_string()], Some(false));
    assert_eq!(r, Err(Error::NotInstalledError));
    let r = conda.version_request(None);
    assert_eq!(r, Err(Error::NotInstalledError));
    let r = conda.create_env("myenv", "3.11", Some(false));
    assert_eq!(r, Err(Error::NotInstalledError));
}

#[test]
fn nvm_exec_refused_when_not_installed() {
    let nvm = nvm();
    let r = nvm.exec_invocation(vec!["version".to_string()], false);
    assert_eq!(r, Err(NvmError::NotInstalled));
    let r = nvm.current_version_invocation(false);
    assert_eq!(r, Err(NvmError::NotInstalled));
}

#[test]
fn conda_install_refused_when_already_installed() {
    let conda = unix_conda();
    assert_eq!(conda.install(Some(true)), Err(Error::CondaAlreadyInstalled));
    let d = conda.install(Some(false)).unwrap();
    assert_eq!(d.install_dir, "/opt/conda");
}

#[test]
fn nvm_install_refused_when_already_installed() {
    let nvm = nvm();
    let r = nvm.install(true);
    assert_eq!(r.unwrap_err(), "NVM already installed");
    let d = nvm.install(false).unwrap();
    assert_eq!(d.install_dir, "/opt/nvm");
}

#[test]
fn conda_version_parses_raw_stdout() {
    let conda = unix_conda();
    let r = conda.version(completed("conda 23.1.0\n", true, 0));
    assert_eq!(r.unwrap(), "23.1.0");
}

#[test]
fn conda_version_request_arguments() {
    let conda = unix_conda();
    let inv = conda.version_request(Some(true)).unwrap();
    assert_eq!(inv.executable, "/opt/conda/bin/conda");
    assert_eq!(inv.args, vec!["--version".to_string()]);
    assert!(inv.env.is_empty());
}

#[test]
fn conda_create_env_arguments() {
    let conda = unix_conda();
    let inv = conda.create_env("myenv", "3.11", Some(true)).unwrap();
    assert_eq!(inv.executable, "/opt/conda/bin/conda");
    assert_eq!(
        inv.args,
        vec![
            "create".to_string(),
            "-p".to_string(),
            "/opt/conda/envs/myenv".to_string(),
            "python=3.11".to_string(),
        ]
    );
}

#[test]
fn conda_nonzero_exit_carries_full_output() {
    let conda = unix_conda();
    let res = CommandResult {
        stdout: "partial output".to_string(),
        stderr: "boom".to_string(),
        success: false,
        code: 2,
    };
    let r = conda.command_response(RunOutcome::Completed(res.clone()));
    assert_eq!(r, Err(Error::CommandError(res)));
}

#[test]
fn conda_spawn_and_decode_failures_are_distinct() {
    let conda = unix_conda();
    let r = conda.command_response(RunOutcome::SpawnFailed("no such file".to_string()));
    assert_eq!(r, Err(Error::CommandInvokationError("no such file".to_string())));
    let r = conda.command_response(RunOutcome::DecodeFailed);
    assert_eq!(r, Err(Error::CommandOutputParsingError));
}

#[test]
fn conda_create_env_outcome_maps_success_and_failure() {
    let conda = unix_conda();
    assert_eq!(conda.create_env_outcome(completed("", true, 0)), Ok(()));
    let r = conda.create_env_outcome(completed("nope", false, 1));
    assert!(matches!(r, Err(Error::CommandError(_))));
}

#[test]
fn nvm_current_version_parses_active_entry() {
    let nvm = nvm();
    let r = nvm.current_node_version(completed(
        "* v18.16.0 (Currently using 64-bit executable)\n",
        true,
        0,
    ));
    assert_eq!(r.unwrap(), "v18.16.0");
}

#[test]
fn nvm_current_version_normalizes_bare_output() {
    let nvm = nvm();
    let r = nvm.current_node_version(completed("18.16.0\n", true, 0));
    assert_eq!(r.unwrap(), "v18.16.0");
}

#[test]
fn nvm_current_version_failures() {
    let nvm = nvm();
    let r = nvm.current_node_version(completed("", false, 1));
    assert_eq!(r, Err(NvmError::ExecError));
    let r = nvm.current_node_version(RunOutcome::DecodeFailed);
    assert_eq!(r, Err(NvmError::ExecCurrentError));
    let r = nvm.current_node_version(RunOutcome::SpawnFailed("gone".to_string()));
    assert_eq!(r, Err(NvmError::ExecError));
}

#[test]
fn nvm_exec_invocation_sets_home_override() {
    let nvm = nvm();
    let inv = nvm.exec_invocation(vec!["version".to_string()], true).unwrap();
    assert_eq!(inv.executable, "/opt/nvm/nvm.exe");
    assert_eq!(inv.env.len(), 1);
    assert_eq!(inv.env[0].key, "NVM_HOME");
    assert_eq!(inv.env[0].value, "/opt/nvm");
}

#[test]
fn nvm_install_node_flow() {
    let nvm = nvm();
    let inv = nvm.install_node_invocation(true).unwrap();
    assert_eq!(inv.args, vec!["install".to_string(), "latest".to_string()]);
    let next = nvm.install_node_continue(completed("done", true, 0)).unwrap();
    assert_eq!(next.args, vec!["use".to_string(), "latest".to_string()]);
    assert_eq!(nvm.install_node_finish(completed("", true, 0)), Ok(()));
    let r = nvm.install_node_continue(RunOutcome::SpawnFailed("gone".to_string()));
    assert_eq!(r, Err(NvmError::InstallError("gone".to_string())));
}

#[test]
fn nvm_get_node_resolution() {
    let nvm = nvm();
    assert_eq!(nvm.get_executable_path(), "/opt/nvm/nvm.exe");
    assert_eq!(nvm.get_node_version_dir("v18.16.0"), "/opt/nvm/v18.16.0");
    assert_eq!(nvm.get_node_after_check(false), GetNodeStep::InstallNode);
    assert_eq!(nvm.get_node_after_check(true), GetNodeStep::Resolve);
    let node = nvm.get_node("v18.16.0");
    assert_eq!(node.node_path, "/opt/nvm/v18.16.0");
}

#[test]
fn node_paths_and_outcomes() {
    let node = WindowsNode::new("/opt/nvm/v18.16.0".to_string());
    assert_eq!(node.get_npm().npm_path, "/opt/nvm/v18.16.0/npm.cmd");
    let inv = node.exec_invocation(vec!["--version".to_string()]);
    assert_eq!(inv.executable, "/opt/nvm/v18.16.0/node");
    assert!(inv.env.is_empty());
    let r = node.exec_outcome(RunOutcome::SpawnFailed("missing".to_string()));
    assert_eq!(r, Err(NodeError::FailedExecution));
    let done = completed("ok", false, 3);
    let r = node.exec_outcome(done.clone());
    match (r, done) {
        (Ok(res), RunOutcome::Completed(orig)) => assert_eq!(res, orig),
        _ => panic!("completed run must be handed back whole"),
    }
}

#[test]
fn cli_dispatch() {
    assert_eq!(run(Some("new")), Ok(CliCommand::New));
    assert_eq!(run(Some("build")), Err(CommandError::CommandNotImplemented));
    assert_eq!(run(None), Err(CommandError::NoCommandProvided));
}
