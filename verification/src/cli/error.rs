//! The ways in which a subcommand fails.

use vstd::prelude::*;
use vstd::string::*;

verus! {

/// Why a subcommand failed.
#[derive(Debug)]
pub enum CliError {
    /// The directory of the command line's own package has no parent.
    NoWorkspaceRoot,
    /// `wasm-pack` is not installed.
    WasmPackMissing,
    /// The browser asked for is none that the application's tests run in.
    UnsupportedBrowser { browser: String },
    /// The command could not be launched.
    LaunchFailed { command: String },
    /// The command ran and reported failure.
    CommandFailed { status: String, command: String },
    /// The directory to serve does not exist or is no directory.
    MissingStaticDir { path: String },
}

/// What an error is, to the contracts.
pub enum CliErrorModel {
    NoWorkspaceRoot,
    WasmPackMissing,
    UnsupportedBrowser { browser: Seq<char> },
    LaunchFailed { command: Seq<char> },
    CommandFailed { status: Seq<char>, command: Seq<char> },
    MissingStaticDir { path: Seq<char> },
}

impl View for CliError {
    type V = CliErrorModel;

    open spec fn view(&self) -> CliErrorModel {
        match self {
            CliError::NoWorkspaceRoot => CliErrorModel::NoWorkspaceRoot,
            CliError::WasmPackMissing => CliErrorModel::WasmPackMissing,
            CliError::UnsupportedBrowser { browser } => CliErrorModel::UnsupportedBrowser {
                browser: browser@,
            },
            CliError::LaunchFailed { command } => CliErrorModel::LaunchFailed {
                command: command@,
            },
            CliError::CommandFailed { status, command } => CliErrorModel::CommandFailed {
                status: status@,
                command: command@,
            },
            CliError::MissingStaticDir { path } => CliErrorModel::MissingStaticDir { path: path@ },
        }
    }
}

impl CliErrorModel {
    /// The text of the error.
    pub open spec fn message(self) -> Seq<char> {
        match self {
            CliErrorModel::NoWorkspaceRoot => "Failed to get parent of CARGO_MANIFEST_DIR"@,
            CliErrorModel::WasmPackMissing => "wasm-pack not found. Please install it."@,
            CliErrorModel::UnsupportedBrowser { browser } => "Unsupported browser: "@ + browser,
            CliErrorModel::LaunchFailed { command } => "Failed to execute command: "@ + command,
            CliErrorModel::CommandFailed { status, command } => "Command failed with status "@
                + status + ": "@ + command,
            CliErrorModel::MissingStaticDir { path } => "Static directory '"@ + path
                + "' does not exist or is not a directory."@,
        }
    }
}

impl CliError {
    /// The text of the error.
    pub fn message(&self) -> (text: String)
        ensures
            text@ == self@.message(),
    {
        match self {
            CliError::NoWorkspaceRoot => String::from_str(
                "Failed to get parent of CARGO_MANIFEST_DIR",
            ),
            CliError::WasmPackMissing => String::from_str("wasm-pack not found. Please install it."),
            CliError::UnsupportedBrowser { browser } => {
                let mut text = String::from_str("Unsupported browser: ");
                text.append(browser.as_str());
                text
            },
            CliError::LaunchFailed { command } => {
                let mut text = String::from_str("Failed to execute command: ");
                text.append(command.as_str());
                text
            },
            CliError::CommandFailed { status, command } => {
                let mut text = String::from_str("Command failed with status ");
                text.append(status.as_str());
                text.append(": ");
                text.append(command.as_str());
                text
            },
            CliError::MissingStaticDir { path } => {
                let mut text = String::from_str("Static directory '");
                text.append(path.as_str());
                text.append("' does not exist or is not a directory.");
                text
            },
        }
    }
}

} // verus!
