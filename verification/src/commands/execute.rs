//! Carrying out a parsed command line.
//!
//! Each subcommand is one operation outside of this library. Its outcome leads to the exit of the
//! program, or to a failure that says what was attempted.
use vstd::prelude::*;
use vstd::string::*;

use crate::commands::cli;
use crate::commands::cli::{Cli, Commands};
use crate::commands::install::InstallOutcome;
use crate::commands::run::RunOptions;
use crate::runtime::process::ProcessStatus;
use crate::text;

verus! {

/// How the program exits.
#[derive(Debug, Clone, Copy, PartialEq, Eq, Structural)]
pub enum CliExit {
    /// In success.
    Success,
    /// With an exit code.
    Code(i32),
}

/// The exit for a process that ended: success for success, else its exit code, else 128 and the
/// number of the signal that ended it, else 1.
pub open spec fn exit_for(status: ProcessStatus) -> CliExit {
    match (status.code, status.signal) {
        (Some(code), _) => if code == 0 {
            CliExit::Success
        } else {
            CliExit::Code(code)
        },
        (None, Some(signal)) => CliExit::Code((128 + signal) as i32),
        (None, None) => CliExit::Code(1),
    }
}

/// Whether 128 can be added to the number of the signal that ended a process.
pub open spec fn signal_in_range(status: ProcessStatus) -> bool {
    status.signal matches Some(signal) ==> signal + 128 <= i32::MAX
}

/// The exit code for a process that ended without one.
pub fn signal_exit_code(status: ProcessStatus) -> (code: i32)
    requires
        signal_in_range(status),
    ensures
        code == match status.signal {
            Some(signal) => 128 + signal,
            None => 1,
        },
{
    match status.signal {
        Some(signal) => 128 + signal,
        None => 1,
    }
}

/// The exit for a process that ended.
pub fn exit_from_status(status: ProcessStatus) -> (exit: CliExit)
    requires
        signal_in_range(status),
    ensures
        exit == exit_for(status),
        status.code matches Some(code) ==> exit == if code == 0 {
            CliExit::Success
        } else {
            CliExit::Code(code)
        },
        status.code is None ==> (status.signal matches Some(signal) ==> exit == CliExit::Code(
            (128 + signal) as i32,
        )),
        status.code is None && status.signal is None ==> exit == CliExit::Code(1),
{
    if status.success() {
        return CliExit::Success;
    }
    match status.code {
        Some(code) => CliExit::Code(code),
        None => CliExit::Code(signal_exit_code(status)),
    }
}

/// Why a command was not carried out. `cause` describes what went wrong.
#[derive(Debug, Clone, PartialEq, Eq)]
pub enum CommandFailure {
    /// The agents could not be listed.
    List {
        /// What went wrong.
        cause: String,
    },
    /// The agents could not be searched.
    Search {
        /// What was searched for.
        agent_id: String,
        /// What went wrong.
        cause: String,
    },
    /// The package managers could not be installed.
    InstallEnv {
        /// What went wrong.
        cause: String,
    },
    /// An agent could not be installed.
    Install {
        /// The agent's identifier.
        agent_id: String,
        /// What went wrong.
        cause: String,
    },
    /// An agent could not be run.
    Run {
        /// The agent's identifier.
        agent_id: String,
        /// What went wrong.
        cause: String,
    },
    /// The outcome could not be written.
    Write {
        /// What went wrong.
        cause: String,
    },
}

impl CommandFailure {
    /// The text that describes the failure.
    pub open spec fn text(self) -> Seq<char> {
        match self {
            CommandFailure::List { cause } => "failed to list registry agents"@,
            CommandFailure::Search {
                agent_id,
                cause,
            } => "failed to search registry agents for \""@ + agent_id@ + "\""@,
            CommandFailure::InstallEnv { cause } => "failed to install environment dependencies"@,
            CommandFailure::Install { agent_id, cause } => "failed to install agent \""@ + agent_id@
                + "\""@,
            CommandFailure::Run { agent_id, cause } => "failed to run agent \""@ + agent_id@ + "\""@,
            CommandFailure::Write { cause } => cause@,
        }
    }

    /// Describes the failure.
    pub fn message(&self) -> (out: String)
        ensures
            out@ == self.text(),
    {
        match self {
            CommandFailure::List { cause } => "failed to list registry agents".to_owned(),
            CommandFailure::Search { agent_id, cause } => {
                let mut out = "failed to search registry agents for \"".to_owned();
                out.append(agent_id.as_str());
                out.append("\"");
                out
            },
            CommandFailure::InstallEnv { cause } => {
                "failed to install environment dependencies".to_owned()
            },
            CommandFailure::Install { agent_id, cause } => {
                let mut out = "failed to install agent \"".to_owned();
                out.append(agent_id.as_str());
                out.append("\"");
                out
            },
            CommandFailure::Run { agent_id, cause } => {
                let mut out = "failed to run agent \"".to_owned();
                out.append(agent_id.as_str());
                out.append("\"");
                out
            },
            CommandFailure::Write { cause } => cause.clone(),
        }
    }
}

/// The agents are to be listed.
pub struct ListStep {
    listing: (),
}

/// The agents are to be searched.
pub struct SearchStep {
    /// What to search for.
    pub agent_id: String,
}

/// The package managers are to be installed.
pub struct InstallEnvStep {
    /// Whether to go ahead without asking.
    pub yes: bool,
}

/// An agent is to be installed.
pub struct InstallStep {
    /// The agent's identifier.
    pub agent_id: String,
}

/// The outcome of an installation is to be written, as a line of its own.
pub struct WriteOutcomeStep {
    /// The line, without its end.
    pub line: String,
}

/// An agent is to be run.
pub struct RunStep {
    /// The agent's identifier.
    pub agent_id: String,
    /// How the agent is reached.
    pub options: RunOptions,
    /// The arguments for the agent.
    pub args: Vec<String>,
}

/// What carrying out a command line takes.
pub enum CliStep {
    /// The agents are listed.
    List(ListStep),
    /// The agents are searched.
    Search(SearchStep),
    /// The package managers are installed.
    InstallEnv(InstallEnvStep),
    /// An agent is installed.
    Install(InstallStep),
    /// An agent is run.
    Run(RunStep),
}

impl CliStep {
    /// The command that the step carries out.
    pub open spec fn form(self) -> cli::CommandForm {
        match self {
            CliStep::List(_) => cli::CommandForm::List,
            CliStep::Search(step) => cli::CommandForm::Search { agent_id: step.agent_id@ },
            CliStep::InstallEnv(step) => cli::CommandForm::InstallEnv { yes: step.yes },
            CliStep::Install(step) => cli::CommandForm::Install { agent_id: step.agent_id@ },
            CliStep::Run(step) => cli::CommandForm::Run {
                agent_id: step.agent_id@,
                transport: step.options.transport,
                host: step.options.host@,
                port: step.options.port,
                args: text::texts(step.args@),
            },
        }
    }
}

/// Decides what carrying out a command line takes.
pub fn execute_cli(cli: Cli) -> (step: CliStep)
    ensures
        step.form() == cli.command@,
        match (cli.command, step) {
            (Commands::List, CliStep::List(_)) => true,
            (Commands::Search { agent_id }, CliStep::Search(search)) => search.agent_id == agent_id,
            (Commands::InstallEnv { yes }, CliStep::InstallEnv(install)) => install.yes == yes,
            (Commands::Install { agent_id }, CliStep::Install(install)) => install.agent_id
                == agent_id,
            (Commands::Run { agent_id, transport, host, port, args }, CliStep::Run(run)) => {
                &&& run.agent_id == agent_id
                &&& run.options == (RunOptions { transport, host, port })
                &&& run.args == args
            },
            _ => false,
        },
{
    match cli.command {
        Commands::List => CliStep::List(ListStep { listing: () }),
        Commands::Search { agent_id } => CliStep::Search(SearchStep { agent_id }),
        Commands::InstallEnv { yes } => CliStep::InstallEnv(InstallEnvStep { yes }),
        Commands::Install { agent_id } => CliStep::Install(InstallStep { agent_id }),
        Commands::Run { agent_id, transport, host, port, args } => CliStep::Run(
            RunStep { agent_id, options: RunOptions { transport, host, port }, args },
        ),
    }
}

impl ListStep {
    /// Takes what came of listing the agents.
    pub fn finished(self, outcome: Result<(), String>) -> (exit: Result<CliExit, CommandFailure>)
        ensures
            match outcome {
                Ok(()) => exit == Ok::<CliExit, CommandFailure>(CliExit::Success),
                Err(e) => exit == Err::<CliExit, CommandFailure>(CommandFailure::List { cause: e }),
            },
    {
        match outcome {
            Ok(()) => Ok(CliExit::Success),
            Err(cause) => Err(CommandFailure::List { cause }),
        }
    }
}

impl SearchStep {
    /// Takes what came of searching the agents.
    pub fn finished(self, outcome: Result<(), String>) -> (exit: Result<CliExit, CommandFailure>)
        ensures
            match outcome {
                Ok(()) => exit == Ok::<CliExit, CommandFailure>(CliExit::Success),
                Err(e) => exit == Err::<CliExit, CommandFailure>(
                    CommandFailure::Search { agent_id: self.agent_id, cause: e },
                ),
            },
    {
        match outcome {
            Ok(()) => Ok(CliExit::Success),
            Err(cause) => Err(CommandFailure::Search { agent_id: self.agent_id, cause }),
        }
    }
}

impl InstallEnvStep {
    /// Takes what came of installing the package managers.
    pub fn finished(self, outcome: Result<(), String>) -> (exit: Result<CliExit, CommandFailure>)
        ensures
            match outcome {
                Ok(()) => exit == Ok::<CliExit, CommandFailure>(CliExit::Success),
                Err(e) => exit == Err::<CliExit, CommandFailure>(
                    CommandFailure::InstallEnv { cause: e },
                ),
            },
    {
        match outcome {
            Ok(()) => Ok(CliExit::Success),
            Err(cause) => Err(CommandFailure::InstallEnv { cause }),
        }
    }
}

impl InstallStep {
    /// Takes what came of installing the agent: a line to write, or the failure.
    pub fn installed(self, outcome: Result<InstallOutcome, String>) -> (next: Result<
        WriteOutcomeStep,
        CommandFailure,
    >)
        ensures
            match (outcome, next) {
                (Ok(installed), Ok(step)) => step.line@ == installed.text(),
                (Err(e), Err(failure)) => failure == (CommandFailure::Install {
                    agent_id: self.agent_id,
                    cause: e,
                }),
                _ => false,
            },
    {
        match outcome {
            Ok(installed) => Ok(WriteOutcomeStep { line: installed.message() }),
            Err(cause) => Err(CommandFailure::Install { agent_id: self.agent_id, cause }),
        }
    }
}

impl WriteOutcomeStep {
    /// What is written: the line with its end.
    pub fn output(&self) -> (out: String)
        ensures
            out@ == self.line@ + "\n"@,
    {
        let mut out = self.line.clone();
        out.append("\n");
        out
    }

    /// Takes what came of writing the line.
    pub fn written(self, outcome: Result<(), String>) -> (exit: Result<CliExit, CommandFailure>)
        ensures
            match outcome {
                Ok(()) => exit == Ok::<CliExit, CommandFailure>(CliExit::Success),
                Err(e) => exit == Err::<CliExit, CommandFailure>(
                    CommandFailure::Write { cause: e },
                ),
            },
    {
        match outcome {
            Ok(()) => Ok(CliExit::Success),
            Err(cause) => Err(CommandFailure::Write { cause }),
        }
    }
}

impl RunStep {
    /// Takes what came of running the agent: how its process ended, or the failure.
    pub fn finished(self, outcome: Result<ProcessStatus, String>) -> (exit: Result<
        CliExit,
        CommandFailure,
    >)
        requires
            outcome matches Ok(status) ==> signal_in_range(status),
        ensures
            match outcome {
                Ok(status) => exit == Ok::<CliExit, CommandFailure>(exit_for(status)),
                Err(e) => exit == Err::<CliExit, CommandFailure>(
                    CommandFailure::Run { agent_id: self.agent_id, cause: e },
                ),
            },
    {
        match outcome {
            Ok(status) => Ok(exit_from_status(status)),
            Err(cause) => Err(CommandFailure::Run { agent_id: self.agent_id, cause }),
        }
    }
}

// ---------------------------------------------------------------------------
// Laws
// ---------------------------------------------------------------------------

/// The program succeeds exactly if the agent's process does.
pub proof fn exit_is_success_exactly_for_success(status: ProcessStatus)
    ensures
        exit_for(status) == CliExit::Success <==> status.is_success(),
{
}

/// The program exits with the exit code of the agent's process; where a signal ended the process,
/// with 128 and the signal's number.
pub proof fn exit_codes_are_passed_on(status: ProcessStatus, code: i32, signal: i32)
    ensures
        status.code == Some(code) && code != 0 ==> exit_for(status) == CliExit::Code(code),
        status.code == Some(0i32) ==> exit_for(status) == CliExit::Success,
        status.code is None && status.signal == Some(signal) && signal + 128 <= i32::MAX
            ==> (exit_for(status) matches CliExit::Code(reported) && reported == 128 + signal),
        status.code is None && status.signal is None ==> exit_for(status) == CliExit::Code(1i32),
{
}

/// What a command failed on is shown in the description of its failure in full.
pub proof fn failures_show_what_was_attempted(failure: CommandFailure)
    ensures
        match failure {
            CommandFailure::Search { agent_id, cause } => text::occurs_in(
                failure.text(),
                agent_id@,
            ),
            CommandFailure::Install { agent_id, cause } => text::occurs_in(
                failure.text(),
                agent_id@,
            ),
            CommandFailure::Run { agent_id, cause } => text::occurs_in(failure.text(), agent_id@),
            CommandFailure::Write { cause } => failure.text() == cause@,
            _ => true,
        },
{
    match failure {
        CommandFailure::Search { agent_id, cause } => {
            text::lemma_part_occurs(
                "failed to search registry agents for \""@,
                agent_id@,
                "\""@,
            );
        },
        CommandFailure::Install { agent_id, cause } => {
            text::lemma_part_occurs("failed to install agent \""@, agent_id@, "\""@);
        },
        CommandFailure::Run { agent_id, cause } => {
            text::lemma_part_occurs("failed to run agent \""@, agent_id@, "\""@);
        },
        _ => {},
    }
}

} // verus!
