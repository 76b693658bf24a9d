//! Running an agent on the terminal.
use vstd::prelude::*;
use vstd::string::*;

use crate::path;
use crate::path::shown;
use crate::registry::Registry;
use crate::runtime::error::RuntimeError;
use crate::runtime::prepare::CommandSpec;
use crate::runtime::process::{command_line_of, LaunchPlan, ProcessStatus, Wiring};
use crate::runtime::resolve;
use crate::runtime::resolve::{resolve_command, ResolvedCommand};
use crate::text;

verus! {

/// Decides what is run on the terminal: resolves the agent and prepares its command. A binary is
/// looked for in the cache first.
pub fn run_agent_stdio<'a>(
    registry: &'a Registry,
    agent_id: &str,
    user_args: &'a [String],
    os: &str,
    arch: &str,
) -> (resolved: Result<ResolvedCommand<'a>, RuntimeError>)
    ensures
        resolve::is_resolved_command(
            *registry,
            agent_id@,
            text::texts(user_args@),
            os@,
            arch@,
            resolved,
        ),
{
    resolve_command(registry, agent_id, user_args, os, arch)
}

/// A process has to be run on the terminal until it ends.
pub struct TerminalStep {
    /// The process.
    pub plan: LaunchPlan,
    /// What it is run for.
    pub subject: String,
}

/// Runs the process of an agent on the terminal for `subject`: all its streams are the caller's.
pub fn run_command_stdio(spec: &CommandSpec, subject: &str) -> (step: TerminalStep)
    ensures
        step.plan.command@ == spec@,
        step.plan.stdin == Wiring::Inherit,
        step.plan.stdout == Wiring::Inherit,
        step.plan.stderr == Wiring::Inherit,
        step.subject@ == subject@,
{
    TerminalStep {
        plan: LaunchPlan {
            command: command_line_of(spec),
            stdin: Wiring::Inherit,
            stdout: Wiring::Inherit,
            stderr: Wiring::Inherit,
        },
        subject: subject.to_owned(),
    }
}

impl TerminalStep {
    /// Takes what came of running the process.
    pub fn finished(self, outcome: Result<ProcessStatus, String>) -> (status: Result<
        ProcessStatus,
        RuntimeError,
    >)
        ensures
            match outcome {
                Ok(ended) => status == Ok::<ProcessStatus, RuntimeError>(ended),
                Err(e) => status matches Err(RuntimeError::Run { program, subject, cause })
                    && path::is_shown(self.plan.command.program@, program@) && subject
                    == self.subject && cause == e,
            },
    {
        match outcome {
            Ok(status) => Ok(status),
            Err(cause) => Err(
                RuntimeError::Run {
                    program: shown(self.plan.command.program.as_slice()),
                    subject: self.subject,
                    cause,
                },
            ),
        }
    }
}

} // verus!
