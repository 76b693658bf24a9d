//! Launching and ending the agent's process.
use vstd::prelude::*;
use vstd::string::*;

use crate::bytes::copy_bytes;
use crate::path;
use crate::path::{shown, OsText};
use crate::runtime::error::RuntimeError;
use crate::runtime::prepare;
use crate::runtime::prepare::CommandSpec;
use crate::text;

verus! {

/// How a process ended: with an exit code, or by a signal.
#[derive(Debug, Clone, Copy, PartialEq, Eq, Structural)]
pub struct ProcessStatus {
    /// The exit code, if the process exited.
    pub code: Option<i32>,
    /// The number of the signal that ended the process, if one did.
    pub signal: Option<i32>,
}

impl ProcessStatus {
    /// Whether the process exited with code zero.
    pub open spec fn is_success(self) -> bool {
        self.code == Some(0i32)
    }

    /// Whether the process exited with code zero.
    pub fn success(self) -> (success: bool)
        ensures
            success == self.is_success(),
    {
        match self.code {
            Some(code) => code == 0,
            None => false,
        }
    }
}

/// A command line under construction.
#[derive(Debug, Clone, PartialEq, Eq)]
pub struct CommandLine {
    /// The executable.
    pub program: OsText,
    /// Its arguments.
    pub args: Vec<String>,
    /// The environment overrides, in the order in which they are set.
    pub env: Vec<(String, String)>,
    /// The working directory, where it differs from the caller's.
    pub current_dir: Option<OsText>,
}

impl View for CommandLine {
    type V = prepare::CommandModel;

    open spec fn view(&self) -> prepare::CommandModel {
        prepare::CommandModel {
            program: self.program@,
            args: text::texts(self.args@),
            env: text::text_pairs(self.env@),
            current_dir: path::os_option(self.current_dir),
        }
    }
}

impl CommandLine {
    /// The command line that runs `program` without arguments.
    pub fn new(program: &[u8]) -> (line: CommandLine)
        ensures
            line@ == (prepare::CommandModel {
                program: program@,
                args: Seq::empty(),
                env: Seq::empty(),
                current_dir: None,
            }),
    {
        let line = CommandLine {
            program: copy_bytes(program),
            args: Vec::new(),
            env: Vec::new(),
            current_dir: None,
        };
        assert(line@.args =~= Seq::empty());
        assert(line@.env =~= Seq::empty());
        line
    }
}

/// Adds the arguments and the environment overrides of `spec` to `command`, and its working
/// directory where it has one.
pub fn apply_command_spec(command: &mut CommandLine, spec: &CommandSpec)
    ensures
        final(command)@ == (prepare::CommandModel {
            program: old(command)@.program,
            args: old(command)@.args + spec@.args,
            env: old(command)@.env + spec@.env,
            current_dir: if spec@.current_dir is Some {
                spec@.current_dir
            } else {
                old(command)@.current_dir
            },
        }),
{
    let ghost start = command@;
    let mut i: usize = 0;
    assert(command@.args =~= start.args + spec@.args.take(0));
    while i < spec.args.len()
        invariant
            i <= spec.args.len(),
            command@.args =~= start.args + spec@.args.take(i as int),
            command@.program == start.program,
            command@.env == start.env,
            command@.current_dir == start.current_dir,
        decreases spec.args.len() - i,
    {
        let ghost held = command@.args;
        command.args.push(spec.args[i].clone());
        assert(command@.args =~= held.push(spec@.args[i as int]));
        i += 1;
    }
    assert(command@.args =~= start.args + spec@.args);
    match &spec.current_dir {
        Some(dir) => {
            command.current_dir = Some(copy_bytes(dir.as_slice()));
        },
        None => {},
    }
    let ghost dir = command@.current_dir;
    let mut k: usize = 0;
    assert(command@.env =~= start.env + spec@.env.take(0));
    while k < spec.env.len()
        invariant
            k <= spec.env.len(),
            command@.env =~= start.env + spec@.env.take(k as int),
            command@.program == start.program,
            command@.args == start.args + spec@.args,
            command@.current_dir == dir,
        decreases spec.env.len() - k,
    {
        let ghost held = command@.env;
        command.env.push((spec.env[k].0.clone(), spec.env[k].1.clone()));
        assert(command@.env =~= held.push(spec@.env[k as int]));
        k += 1;
    }
    assert(command@.env =~= start.env + spec@.env);
}

/// What a standard stream of the process is connected to.
#[derive(Debug, Clone, Copy, PartialEq, Eq, Structural)]
pub enum Wiring {
    /// The same as the caller's.
    Inherit,
    /// A pipe to the caller.
    Piped,
}

/// A process to start.
#[derive(Debug, Clone, PartialEq, Eq)]
pub struct LaunchPlan {
    /// The command line.
    pub command: CommandLine,
    /// Where standard input comes from.
    pub stdin: Wiring,
    /// Where standard output goes.
    pub stdout: Wiring,
    /// Where standard error goes.
    pub stderr: Wiring,
}

/// The command line that runs `spec`.
pub fn command_line_of(spec: &CommandSpec) -> (line: CommandLine)
    ensures
        line@ == spec@,
        line.program@ == spec.program@,
        line.args@.len() == spec.args@.len(),
        forall|i: int|
            0 <= i < spec.args@.len() ==> (#[trigger] line.args@[i])@ == spec.args@[i]@,
        line.env@.len() == spec.env@.len(),
        forall|i: int|
            0 <= i < spec.env@.len() ==> (#[trigger] line.env@[i]).0@ == spec.env@[i].0@
                && line.env@[i].1@ == spec.env@[i].1@,
{
    let mut line = CommandLine::new(spec.program.as_slice());
    apply_command_spec(&mut line, spec);
    assert(line@.args =~= spec@.args);
    assert(line@.env =~= spec@.env);
    proof {
        processes_get_the_whole_command(line, *spec);
    }
    line
}

/// A process has to be started.
pub struct SpawnStep {
    /// The process.
    pub plan: LaunchPlan,
    /// What it is started for.
    pub subject: String,
}

/// Starts the process of an agent that is served for `subject`: its standard input and output are
/// piped.
pub fn spawn_stream_child(spec: &CommandSpec, subject: &str) -> (step: SpawnStep)
    ensures
        step.plan.command@ == spec@,
        step.plan.stdin == Wiring::Piped,
        step.plan.stdout == Wiring::Piped,
        step.plan.stderr == Wiring::Inherit,
        step.subject@ == subject@,
{
    SpawnStep {
        plan: LaunchPlan {
            command: command_line_of(spec),
            stdin: Wiring::Piped,
            stdout: Wiring::Piped,
            stderr: Wiring::Inherit,
        },
        subject: subject.to_owned(),
    }
}

/// A process that was started, with its pipes.
pub struct StreamChild<C, I, O> {
    /// The process.
    pub child: C,
    /// Its standard input.
    pub stdin: I,
    /// Its standard output.
    pub stdout: O,
}

impl SpawnStep {
    /// Takes what came of starting the process: the process with the pipes that it has, or the
    /// failure. A served agent needs both pipes.
    pub fn spawned<C, I, O>(
        self,
        outcome: Result<(C, Option<I>, Option<O>), String>,
    ) -> (started: Result<StreamChild<C, I, O>, RuntimeError>)
        ensures
            match outcome {
                Ok((child, Some(stdin), Some(stdout))) => started == Ok::<
                    StreamChild<C, I, O>,
                    RuntimeError,
                >(StreamChild { child, stdin, stdout }),
                Ok((child, None, _)) => started == Err::<StreamChild<C, I, O>, RuntimeError>(
                    RuntimeError::MissingStdin,
                ),
                Ok((child, Some(stdin), None)) => started == Err::<
                    StreamChild<C, I, O>,
                    RuntimeError,
                >(RuntimeError::MissingStdout),
                Err(e) => started matches Err(RuntimeError::Spawn { program, subject, cause })
                    && path::is_shown(self.plan.command.program@, program@) && subject
                    == self.subject && cause == e,
            },
    {
        match outcome {
            Ok((child, Some(stdin), Some(stdout))) => Ok(StreamChild { child, stdin, stdout }),
            Ok((_, None, _)) => Err(RuntimeError::MissingStdin),
            Ok((_, Some(_), None)) => Err(RuntimeError::MissingStdout),
            Err(cause) => Err(
                RuntimeError::Spawn {
                    program: shown(self.plan.command.program.as_slice()),
                    subject: self.subject,
                    cause,
                },
            ),
        }
    }
}

/// Takes what came of waiting for the process to end.
pub fn child_waited(outcome: Result<ProcessStatus, String>) -> (status: Result<
    ProcessStatus,
    RuntimeError,
>)
    ensures
        match (outcome, status) {
            (Ok(ended), Ok(reported)) => reported == ended,
            (Err(e), Err(error)) => error == (RuntimeError::WaitChild { cause: e }),
            _ => false,
        },
{
    match outcome {
        Ok(status) => Ok(status),
        Err(cause) => Err(RuntimeError::WaitChild { cause }),
    }
}

/// What ending a process takes, after a look at whether it has ended.
pub enum Termination {
    /// Nothing is left to do.
    Ended(Result<ProcessStatus, RuntimeError>),
    /// The process is running and has to be killed.
    Kill(KillStep),
}

/// The process has to be killed. Only [`terminate_child`] makes such a step.
pub struct KillStep {
    running: (),
}

/// The process was killed and its end has to be awaited. Only [`KillStep::killed`] makes such a
/// step.
pub struct WaitStep {
    killed: (),
}

/// Ends a process; `checked` is its status if it has ended already, and `None` if it has not. A
/// process that has ended is not killed.
pub fn terminate_child(checked: Result<Option<ProcessStatus>, String>) -> (step: Termination)
    ensures
        step is Kill <==> checked == Ok::<Option<ProcessStatus>, String>(None),
        match checked {
            Ok(Some(status)) => step == Termination::Ended(Ok(status)),
            Ok(None) => step is Kill,
            Err(e) => step == Termination::Ended(Err(RuntimeError::CheckChild { cause: e })),
        },
{
    match checked {
        Ok(Some(status)) => Termination::Ended(Ok(status)),
        Ok(None) => Termination::Kill(KillStep { running: () }),
        Err(cause) => Termination::Ended(Err(RuntimeError::CheckChild { cause })),
    }
}

impl KillStep {
    /// Takes what came of killing the process.
    pub fn killed(self, outcome: Result<(), String>) -> (next: Result<WaitStep, RuntimeError>)
        ensures
            match outcome {
                Ok(()) => next is Ok,
                Err(e) => next == Err::<WaitStep, RuntimeError>(
                    RuntimeError::KillChild { cause: e },
                ),
            },
    {
        match outcome {
            Ok(()) => Ok(WaitStep { killed: () }),
            Err(cause) => Err(RuntimeError::KillChild { cause }),
        }
    }
}

impl WaitStep {
    /// Takes what came of waiting for the killed process to end.
    pub fn waited(self, outcome: Result<ProcessStatus, String>) -> (status: Result<
        ProcessStatus,
        RuntimeError,
    >)
        ensures
            match (outcome, status) {
                (Ok(ended), Ok(reported)) => reported == ended,
                (Err(e), Err(error)) => error == (RuntimeError::WaitChild { cause: e }),
                _ => false,
            },
    {
        child_waited(outcome)
    }
}

/// What is returned once a process was ended on purpose.
pub enum AfterTermination {
    /// How the process ended, or why it could not be ended.
    Report,
    /// The error that led to ending it, however that went.
    Fail(RuntimeError),
}

impl AfterTermination {
    /// What is returned if ending the process came to `ended`.
    pub open spec fn outcome(self, ended: Result<ProcessStatus, RuntimeError>) -> Result<
        ProcessStatus,
        RuntimeError,
    > {
        match self {
            AfterTermination::Report => ended,
            AfterTermination::Fail(error) => Err(error),
        }
    }

    /// What is returned once ending the process came to `ended`.
    pub fn conclude(self, ended: Result<ProcessStatus, RuntimeError>) -> (status: Result<
        ProcessStatus,
        RuntimeError,
    >)
        ensures
            status == self.outcome(ended),
    {
        match self {
            AfterTermination::Report => ended,
            AfterTermination::Fail(error) => Err(error),
        }
    }
}

// ---------------------------------------------------------------------------
// Laws
// ---------------------------------------------------------------------------

/// A process is started with the program of its command, with every argument and every environment
/// override, each unchanged and in its order, and in the command's directory.
pub proof fn processes_get_the_whole_command(line: CommandLine, spec: CommandSpec)
    requires
        line@ == spec@,
    ensures
        line.program@ == spec.program@,
        line.args@.len() == spec.args@.len(),
        forall|i: int|
            0 <= i < spec.args@.len() ==> (#[trigger] line.args@[i])@ == spec.args@[i]@,
        line.env@.len() == spec.env@.len(),
        forall|i: int|
            0 <= i < spec.env@.len() ==> (#[trigger] line.env@[i]).0@ == spec.env@[i].0@
                && line.env@[i].1@ == spec.env@[i].1@,
        line.current_dir is Some <==> spec.current_dir is Some,
        line.current_dir is Some ==> line.current_dir->0@ == spec.current_dir->0@,
{
    text::texts_hold_every_string(line.args@, line.env@);
    text::texts_hold_every_string(spec.args@, spec.env@);
    assert(line@.args == spec@.args && line@.env == spec@.env);
    assert(line@.current_dir == spec@.current_dir);
    assert forall|i: int| 0 <= i < spec.args@.len() implies (#[trigger] line.args@[i])@
        == spec.args@[i]@ by {
        assert(text::texts(line.args@)[i] == text::texts(spec.args@)[i]);
    }
    assert forall|i: int| 0 <= i < spec.env@.len() implies (#[trigger] line.env@[i]).0@
        == spec.env@[i].0@ && line.env@[i].1@ == spec.env@[i].1@ by {
        assert(text::text_pairs(line.env@)[i] == text::text_pairs(spec.env@)[i]);
    }
}

/// A process succeeds exactly if it exits with code zero; one that was ended by a signal does not.
pub proof fn only_code_zero_is_success(status: ProcessStatus)
    ensures
        status.is_success() <==> (status.code matches Some(code) && code == 0),
{
}

/// What led to ending a process is reported however ending it goes; where nothing did, its own end
/// is.
pub proof fn failures_outlive_their_process(
    error: RuntimeError,
    ended: Result<ProcessStatus, RuntimeError>,
)
    ensures
        AfterTermination::Fail(error).outcome(ended) == Err::<ProcessStatus, RuntimeError>(error),
        AfterTermination::Report.outcome(ended) == ended,
{
}

} // verus!
