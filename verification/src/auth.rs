//! The boundary to the authentication collaborator: an external script that
//! is run once per request and answers on its standard output.
//!
//! Only the boundary is here: which arguments a request becomes, where the
//! script is looked for, and how the end of a run is read. Running the
//! script and parsing its answer is left to the caller.

use crate::locate::{first_usable, pick_first_usable, ProbedPath};
use vstd::prelude::*;
use vstd::string::*;

verus! {

/// The interpreter that runs the collaborator's scripts.
pub const INTERPRETER: &'static str = "python3";

/// The script's location relative to the executable's directory in a
/// development tree.
pub const SCRIPT_IN_DEVELOPMENT_TREE: &'static str = "../../../src-tauri/python/main.py";

/// The script's location relative to the executable's directory in an
/// application bundle.
pub const SCRIPT_IN_BUNDLE: &'static str = "../Resources/python/main.py";

/// The script's location below the working directory.
pub const SCRIPT_BELOW_WORKING_DIR: &'static str = "src-tauri/python/main.py";

/// The setup script, which lies beside the collaborator's script.
pub const INSTALLER_FILE: &'static str = "install_desktop_env.py";

/// A request to the collaborator.
#[derive(Clone, Debug, PartialEq, Eq)]
pub enum AuthRequest {
    Login { email: String, password: String },
    Signup { email: String, password: String },
    EnrollDevice,
    Connect,
    GetStatus,
}

/// Why a run of one of the collaborator's scripts gave no answer.
#[derive(Clone, Debug, PartialEq, Eq)]
pub enum BridgeError {
    /// The collaborator's script is at none of its locations.
    ScriptNotFound,
    /// The script's path has no directory part.
    NoScriptDirectory,
    /// There is no setup script beside the collaborator's script.
    InstallerNotFound,
    /// The interpreter could not be started; the text is the system's.
    LaunchFailed(String),
    /// The setup script could not be started; the text is the system's.
    InstallerLaunchFailed(String),
    /// The script ended with a failure status; the text is what it wrote to
    /// its standard error.
    CommandFailed(String),
    /// The script's answer is no valid response; the text is the parser's.
    ParseFailed(String),
    /// The setup script ended with a failure status.
    InstallFailed { stdout: String, stderr: String },
}

impl AuthRequest {
    /// The positional arguments of the request: the operation's name, then
    /// its operands.
    pub open spec fn argument_texts(&self) -> Seq<Seq<char>> {
        match self {
            AuthRequest::Login { email, password } => seq!["login"@, email@, password@],
            AuthRequest::Signup { email, password } => seq!["signup"@, email@, password@],
            AuthRequest::EnrollDevice => seq!["enroll"@],
            AuthRequest::Connect => seq!["connect"@],
            AuthRequest::GetStatus => seq!["test"@],
        }
    }

    /// Builds the positional arguments with which the script is run.
    pub fn arguments(&self) -> (args: Vec<String>)
        ensures
            args.deep_view() == self.argument_texts(),
    {
        let mut args: Vec<String> = Vec::new();
        match self {
            AuthRequest::Login { email, password } => {
                args.push(String::from_str("login"));
                args.push(email.clone());
                args.push(password.clone());
            },
            AuthRequest::Signup { email, password } => {
                args.push(String::from_str("signup"));
                args.push(email.clone());
                args.push(password.clone());
            },
            AuthRequest::EnrollDevice => {
                args.push(String::from_str("enroll"));
            },
            AuthRequest::Connect => {
                args.push(String::from_str("connect"));
            },
            AuthRequest::GetStatus => {
                args.push(String::from_str("test"));
            },
        }
        assert(args.deep_view() =~= self.argument_texts());
        args
    }
}

impl BridgeError {
    /// The text shown to the user for this failure.
    pub open spec fn message_text(&self) -> Seq<char> {
        match self {
            BridgeError::ScriptNotFound => "Python script not found"@,
            BridgeError::NoScriptDirectory => "Failed to get python directory"@,
            BridgeError::InstallerNotFound => "Installation script not found"@,
            BridgeError::LaunchFailed(report) => "Failed to execute Python: "@ + report@,
            BridgeError::InstallerLaunchFailed(report) => "Failed to run installation script: "@
                + report@,
            BridgeError::CommandFailed(stderr) => "Python command failed: "@ + stderr@,
            BridgeError::ParseFailed(detail) => "Failed to parse response: "@ + detail@,
            BridgeError::InstallFailed { stdout, stderr } => "Installation failed:\nSTDOUT: "@
                + stdout@ + "\nSTDERR: "@ + stderr@,
        }
    }

    /// Renders the failure as the single string that callers pass on.
    pub fn message(&self) -> (text: String)
        ensures
            text@ == self.message_text(),
    {
        match self {
            BridgeError::ScriptNotFound => String::from_str("Python script not found"),
            BridgeError::NoScriptDirectory => String::from_str("Failed to get python directory"),
            BridgeError::InstallerNotFound => String::from_str("Installation script not found"),
            BridgeError::LaunchFailed(report) => String::from_str(
                "Failed to execute Python: ",
            ).concat(report.as_str()),
            BridgeError::InstallerLaunchFailed(report) => String::from_str(
                "Failed to run installation script: ",
            ).concat(report.as_str()),
            BridgeError::CommandFailed(stderr) => String::from_str(
                "Python command failed: ",
            ).concat(stderr.as_str()),
            BridgeError::ParseFailed(detail) => String::from_str(
                "Failed to parse response: ",
            ).concat(detail.as_str()),
            BridgeError::InstallFailed { stdout, stderr } => String::from_str(
                "Installation failed:\nSTDOUT: ",
            ).concat(stdout.as_str()).concat("\nSTDERR: ").concat(stderr.as_str()),
        }
    }
}

/// How a run of a script ended, once the script could be started.
#[derive(Clone, Debug, PartialEq, Eq)]
pub struct RunOutput {
    /// Whether the exit status reports success.
    pub success: bool,
    pub stdout: String,
    pub stderr: String,
}

/// Reads the end of a run of the collaborator's script. Where the
/// interpreter could not be started, `run` holds the system's report. The
/// standard output is the answer if the script ended with success, else
/// its standard error is the failure.
pub fn command_output(run: Result<RunOutput, String>) -> (answer: Result<String, BridgeError>)
    ensures
        (match run {
            Ok(output) => if output.success {
                answer == Ok::<String, BridgeError>(output.stdout)
            } else {
                answer == Err::<String, BridgeError>(BridgeError::CommandFailed(output.stderr))
            },
            Err(report) => answer == Err::<String, BridgeError>(BridgeError::LaunchFailed(report)),
        }),
{
    match run {
        Ok(output) => {
            if output.success {
                Ok(output.stdout)
            } else {
                Err(BridgeError::CommandFailed(output.stderr))
            }
        },
        Err(report) => Err(BridgeError::LaunchFailed(report)),
    }
}

/// Passes on what the parser made of the script's answer: the value, or
/// the parser's complaint as a failure. Nothing of a malformed answer is
/// used.
pub fn parsed<T>(outcome: Result<T, String>) -> (answer: Result<T, BridgeError>)
    ensures
        (match outcome {
            Ok(value) => answer == Ok::<T, BridgeError>(value),
            Err(detail) => answer == Err::<T, BridgeError>(BridgeError::ParseFailed(detail)),
        }),
{
    match outcome {
        Ok(value) => Ok(value),
        Err(detail) => Err(BridgeError::ParseFailed(detail)),
    }
}

/// Settles where the setup script is: `installer` is its path beside the
/// collaborator's script with what a look at the file system showed, or
/// nothing where the script's path has no directory part.
pub fn locate_installer(installer: Option<ProbedPath>) -> (located: Result<String, BridgeError>)
    ensures
        (match installer {
            Some(probed) => if probed.exists {
                located == Ok::<String, BridgeError>(probed.path)
            } else {
                located == Err::<String, BridgeError>(BridgeError::InstallerNotFound)
            },
            None => located == Err::<String, BridgeError>(BridgeError::NoScriptDirectory),
        }),
{
    match installer {
        Some(probed) => {
            if probed.exists {
                Ok(probed.path)
            } else {
                Err(BridgeError::InstallerNotFound)
            }
        },
        None => Err(BridgeError::NoScriptDirectory),
    }
}

/// The report of a setup run that ended with success.
pub open spec fn install_success_text(stdout: Seq<char>) -> Seq<char> {
    "Installation completed successfully:\n"@ + stdout
}

/// Reads the end of a run of the setup script. Where it could not be
/// started, `run` holds the system's report.
pub fn install_report(run: Result<RunOutput, String>) -> (report: Result<String, BridgeError>)
    ensures
        (match run {
            Ok(output) => if output.success {
                report is Ok && report->Ok_0@ == install_success_text(output.stdout@)
            } else {
                report == Err::<String, BridgeError>(
                    BridgeError::InstallFailed { stdout: output.stdout, stderr: output.stderr },
                )
            },
            Err(report_text) => report == Err::<String, BridgeError>(
                BridgeError::InstallerLaunchFailed(report_text),
            ),
        }),
{
    match run {
        Ok(output) => {
            if output.success {
                Ok(
                    String::from_str("Installation completed successfully:\n").concat(
                        output.stdout.as_str(),
                    ),
                )
            } else {
                Err(BridgeError::InstallFailed { stdout: output.stdout, stderr: output.stderr })
            }
        },
        Err(report_text) => Err(BridgeError::InstallerLaunchFailed(report_text)),
    }
}

/// The locations at which the collaborator's script is looked for, as far
/// as they could be formed, each with what a look at the file system
/// showed.
#[derive(Clone, Debug, PartialEq, Eq)]
pub struct ScriptSearch {
    pub development: Option<ProbedPath>,
    pub bundled: Option<ProbedPath>,
    pub working_dir: Option<ProbedPath>,
}

impl ScriptSearch {
    /// The path that the search settles on: the development tree before
    /// the bundle, the bundle before the working directory.
    pub open spec fn chosen(&self) -> Option<String> {
        first_usable(self.development, self.bundled, self.working_dir)
    }

    /// Resolves the script, or reports that there is none.
    pub fn resolve(self) -> (resolved: Result<String, BridgeError>)
        ensures
            (match resolved {
                Ok(path) => self.chosen() == Some(path),
                Err(failure) => self.chosen() is None && failure == BridgeError::ScriptNotFound,
            }),
    {
        match pick_first_usable(self.development, self.bundled, self.working_dir) {
            Some(path) => Ok(path),
            None => Err(BridgeError::ScriptNotFound),
        }
    }
}

} // verus!
