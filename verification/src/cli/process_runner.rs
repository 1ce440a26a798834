//! A command to run, the line that announces it, and the verdict on how it
//! ended.

use crate::cli::error::{CliError, CliErrorModel};
use crate::text::{join, joined, option_text, texts};
use vstd::prelude::*;
use vstd::string::*;

verus! {

/// A command to run as a child process.
#[derive(Debug)]
pub struct CommandConfig {
    /// The program.
    pub program_name: String,
    /// Its arguments, in order.
    pub args: Vec<String>,
    /// The directory to run it in, where that is not the caller's own.
    pub current_dir: Option<String>,
    /// Variables to add to its environment, as name and value.
    pub env_vars: Vec<(String, String)>,
    /// Whether its output goes where the caller's output goes.
    pub inherit_stdio: bool,
}

/// What a command is, to the contracts.
pub struct CommandModel {
    pub program_name: Seq<char>,
    pub args: Seq<Seq<char>>,
    pub current_dir: Option<Seq<char>>,
    pub env_vars: Seq<(Seq<char>, Seq<char>)>,
    pub inherit_stdio: bool,
}

/// The texts of a sequence of name and value pairs.
pub open spec fn pair_texts(pairs: Seq<(String, String)>) -> Seq<(Seq<char>, Seq<char>)> {
    pairs.map_values(|pair: (String, String)| (pair.0@, pair.1@))
}

impl View for CommandConfig {
    type V = CommandModel;

    open spec fn view(&self) -> CommandModel {
        CommandModel {
            program_name: self.program_name@,
            args: texts(self.args@),
            current_dir: option_text(self.current_dir),
            env_vars: pair_texts(self.env_vars@),
            inherit_stdio: self.inherit_stdio,
        }
    }
}

impl CommandModel {
    /// The command as it is announced and reported: the program, a space,
    /// and the arguments with a space between each two.
    pub open spec fn display(self) -> Seq<char> {
        self.program_name + seq![' '] + joined(self.args, seq![' '])
    }
}

/// How a command ended.
#[derive(Debug)]
pub enum CommandOutcome {
    /// It could not be launched.
    NotLaunched,
    /// It ran to its end; `status` is its exit status as the system reports
    /// it, and `success` whether that status means success.
    Exited { success: bool, status: String },
}

impl CommandConfig {
    /// The command as it is announced and reported.
    pub fn display(&self) -> (line: String)
        ensures
            line@ == self@.display(),
    {
        proof {
            reveal_strlit(" ");
        }
        let mut line = self.program_name.clone();
        line.append(" ");
        assert(" "@ =~= seq![' ']);
        let arguments = join(&self.args, " ");
        line.append(arguments.as_str());
        assert(line@ =~= self@.display());
        line
    }
}

/// The verdict on a command that was run: success where it exited with
/// success, else the error that reports the command and what became of it.
pub fn run_command(config: &CommandConfig, outcome: CommandOutcome) -> (result: Result<
    (),
    CliError,
>)
    ensures
        outcome matches CommandOutcome::Exited { success: true, .. } ==> result is Ok,
        outcome matches CommandOutcome::Exited { success: false, status } ==> result is Err
            && result->Err_0@ == (CliErrorModel::CommandFailed {
            status: status@,
            command: config@.display(),
        }),
        outcome is NotLaunched ==> result is Err && result->Err_0@ == (
        CliErrorModel::LaunchFailed { command: config@.display() }),
{
    match outcome {
        CommandOutcome::NotLaunched => Err(CliError::LaunchFailed { command: config.display() }),
        CommandOutcome::Exited { success, status } => {
            if success {
                Ok(())
            } else {
                Err(CliError::CommandFailed { status, command: config.display() })
            }
        },
    }
}

} // verus!
