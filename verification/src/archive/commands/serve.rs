//! Serving an agent over TCP, with an error for every way to fail.
use vstd::prelude::*;
use vstd::string::*;

use crate::archive::commands::install::IoError;
use crate::archive::commands::run;
use crate::archive::commands::run::{run_agent, ErrorSource, RunError, RunPreparation};
use crate::path;
use crate::path::shown;
use crate::registry::{Registry, RegistryAgent, RegistryError};
use crate::runtime::error;
use crate::runtime::error::bind_target_display;
use crate::runtime::process::ProcessStatus;
use crate::runtime::transports::listen::BoundListener;
use crate::text;
use crate::text::labelled;

verus! {

/// The standard streams of a process that can be piped.
#[derive(Debug, Clone, Copy, PartialEq, Eq, Structural)]
pub enum ChildPipe {
    /// Standard input.
    Stdin,
    /// Standard output.
    Stdout,
}

impl ChildPipe {
    /// The name shown to people.
    pub open spec fn label(self) -> Seq<char> {
        match self {
            ChildPipe::Stdin => "stdin"@,
            ChildPipe::Stdout => "stdout"@,
        }
    }
}

/// Why an agent could not be served.
#[derive(Debug, Clone, PartialEq, Eq)]
pub enum ServeError {
    /// The agent could not be prepared.
    Run(RunError),
    /// The listener could not be bound.
    Bind {
        /// Where it was to be bound.
        address: String,
        /// What went wrong.
        source: IoError,
    },
    /// No connection could be accepted.
    Accept {
        /// The listener's address.
        address: String,
        /// What went wrong.
        source: IoError,
    },
    /// The agent's process could not be started.
    Spawn {
        /// The program.
        program: String,
        /// What went wrong.
        source: IoError,
    },
    /// The agent's process lacks a pipe.
    MissingChildPipe(ChildPipe),
    /// The bytes could not be forwarded.
    BridgeIo(IoError),
    /// The agent's process could not be waited for.
    ChildWait(IoError),
    /// A task failed.
    Join(String),
}

impl ServeError {
    /// The text that describes the error.
    pub open spec fn text(self) -> Seq<char> {
        match self {
            ServeError::Run(error) => error.text(),
            ServeError::Bind { address, source } => "Failed to bind TCP listener on "@ + address@
                + ": "@ + source.message@,
            ServeError::Accept { address, source } => "Failed to accept TCP connection on "@
                + address@ + ": "@ + source.message@,
            ServeError::Spawn { program, source } => "Failed to spawn "@ + program@ + ": "@
                + source.message@,
            ServeError::MissingChildPipe(pipe) => "Child process missing piped "@ + pipe.label(),
            ServeError::BridgeIo(source) => "TCP bridge failed: "@ + source.message@,
            ServeError::ChildWait(source) => "Failed while waiting on child process: "@
                + source.message@,
            ServeError::Join(source) => "Task join failed: "@ + source@,
        }
    }

    /// Describes the error.
    pub fn message(&self) -> (out: String)
        ensures
            out@ == self.text(),
    {
        match self {
            ServeError::Run(error) => error.message(),
            ServeError::Bind { address, source } => {
                let mut out = "Failed to bind TCP listener on ".to_owned();
                out.append(address.as_str());
                out.append(": ");
                out.append(source.message.as_str());
                out
            },
            ServeError::Accept { address, source } => {
                let mut out = "Failed to accept TCP connection on ".to_owned();
                out.append(address.as_str());
                out.append(": ");
                out.append(source.message.as_str());
                out
            },
            ServeError::Spawn { program, source } => {
                let mut out = "Failed to spawn ".to_owned();
                out.append(program.as_str());
                out.append(": ");
                out.append(source.message.as_str());
                out
            },
            ServeError::MissingChildPipe(pipe) => {
                match pipe {
                    ChildPipe::Stdin => labelled("Child process missing piped ", "stdin"),
                    ChildPipe::Stdout => labelled("Child process missing piped ", "stdout"),
                }
            },
            ServeError::BridgeIo(source) => labelled(
                "TCP bridge failed: ",
                source.message.as_str(),
            ),
            ServeError::ChildWait(source) => labelled(
                "Failed while waiting on child process: ",
                source.message.as_str(),
            ),
            ServeError::Join(source) => labelled("Task join failed: ", source.as_str()),
        }
    }

    /// What lies behind the error, if it has something behind it.
    pub fn source(&self) -> (source: Option<ErrorSource<'_>>)
        ensures
            match *self {
                ServeError::Bind { address, source: e } => source matches Some(ErrorSource::Io(s))
                    && *s == e,
                ServeError::Accept { address, source: e } => source matches Some(ErrorSource::Io(s))
                    && *s == e,
                ServeError::Spawn { program, source: e } => source matches Some(ErrorSource::Io(s))
                    && *s == e,
                ServeError::Run(e) => source matches Some(ErrorSource::Run(s)) && *s == e,
                ServeError::BridgeIo(e) => source matches Some(ErrorSource::Io(s)) && *s == e,
                ServeError::ChildWait(e) => source matches Some(ErrorSource::Io(s)) && *s == e,
                ServeError::Join(e) => source matches Some(ErrorSource::Other(s)) && *s == e,
                ServeError::MissingChildPipe(_) => source is None,
            },
    {
        match self {
            ServeError::Bind { address, source } => Some(ErrorSource::Io(source)),
            ServeError::Accept { address, source } => Some(ErrorSource::Io(source)),
            ServeError::Spawn { program, source } => Some(ErrorSource::Io(source)),
            ServeError::Run(error) => Some(ErrorSource::Run(error)),
            ServeError::BridgeIo(source) => Some(ErrorSource::Io(source)),
            ServeError::ChildWait(source) => Some(ErrorSource::Io(source)),
            ServeError::Join(source) => Some(ErrorSource::Other(source)),
            ServeError::MissingChildPipe(_) => None,
        }
    }
}

/// Takes what came of fetching the registry, looks up the agent to serve and prepares its
/// command. Its failures are those of running the agent.
pub fn serve_agent<'a>(
    fetched: Result<&'a Registry, RegistryError>,
    agent_id: &str,
    user_args: &'a [String],
    os: &str,
    arch: &str,
) -> (serving: Result<(&'a RegistryAgent, RunPreparation<'a>), ServeError>)
    ensures
        match serving {
            Ok(prepared) => run::is_running(
                fetched,
                agent_id@,
                text::texts(user_args@),
                os@,
                arch@,
                Ok(prepared),
            ),
            Err(error) => error matches ServeError::Run(cause) && run::is_running(
                fetched,
                agent_id@,
                text::texts(user_args@),
                os@,
                arch@,
                Err(cause),
            ),
        },
{
    match run_agent(fetched, agent_id, user_args, os, arch) {
        Ok(prepared) => Ok(prepared),
        Err(error) => Err(ServeError::Run(error)),
    }
}

/// Takes what came of binding a listener on `host` and `port`: the listener with its own address,
/// if it knows it, or the failure.
pub fn bind_listener<L>(
    host: &str,
    port: u16,
    outcome: Result<(L, Option<String>), IoError>,
) -> (bound: Result<BoundListener<L>, ServeError>)
    ensures
        match (outcome, bound) {
            (Ok((listener, Some(address))), Ok(b)) => b.listener == listener && b.display_address
                == address,
            (Ok((listener, None)), Ok(b)) => b.listener == listener && b.display_address@
                == error::bind_target(host@, port),
            (Err(e), Err(ServeError::Bind { address, source })) => address@ == error::bind_target(
                host@,
                port,
            ) && source == e,
            _ => false,
        },
{
    match outcome {
        Ok((listener, Some(display_address))) => Ok(BoundListener { listener, display_address }),
        Ok((listener, None)) => Ok(
            BoundListener { listener, display_address: bind_target_display(host, port) },
        ),
        Err(source) => Err(ServeError::Bind { address: bind_target_display(host, port), source }),
    }
}

/// The line that announces `agent_id` at `address`.
pub fn serving_line(agent_id: &str, address: &str) -> (line: String)
    ensures
        line@ == "Serving "@ + agent_id@ + " on tcp://"@ + address@,
{
    let mut line = "Serving ".to_owned();
    line.append(agent_id);
    line.append(" on tcp://");
    line.append(address);
    line
}

/// Takes what came of accepting the one connection.
pub fn serve_single_connection<S>(display_address: String, outcome: Result<S, IoError>) -> (accepted:
    Result<S, ServeError>)
    ensures
        match (outcome, accepted) {
            (Ok(socket), Ok(connection)) => connection == socket,
            (Err(e), Err(error)) => error == (ServeError::Accept {
                address: display_address,
                source: e,
            }),
            _ => false,
        },
{
    match outcome {
        Ok(socket) => Ok(socket),
        Err(source) => Err(ServeError::Accept { address: display_address, source }),
    }
}

/// Takes what came of starting the process of `program`.
pub fn child_spawned<C>(program: &[u8], outcome: Result<C, IoError>) -> (child: Result<
    C,
    ServeError,
>)
    ensures
        match (outcome, child) {
            (Ok(started), Ok(running)) => running == started,
            (Err(e), Err(ServeError::Spawn { program: p, source })) => path::is_shown(
                program@,
                p@,
            ) && source == e,
            _ => false,
        },
{
    match outcome {
        Ok(child) => Ok(child),
        Err(source) => Err(ServeError::Spawn { program: shown(program), source }),
    }
}

/// The pipes of a process, both of which the bridge needs.
pub fn child_pipes<I, O>(stdin: Option<I>, stdout: Option<O>) -> (pipes: Result<
    (I, O),
    ServeError,
>)
    ensures
        match (stdin, stdout) {
            (Some(i), Some(o)) => pipes == Ok::<(I, O), ServeError>((i, o)),
            (None, _) => pipes == Err::<(I, O), ServeError>(
                ServeError::MissingChildPipe(ChildPipe::Stdin),
            ),
            (Some(i), None) => pipes == Err::<(I, O), ServeError>(
                ServeError::MissingChildPipe(ChildPipe::Stdout),
            ),
        },
{
    match (stdin, stdout) {
        (Some(i), Some(o)) => Ok((i, o)),
        (None, _) => Err(ServeError::MissingChildPipe(ChildPipe::Stdin)),
        (Some(_), None) => Err(ServeError::MissingChildPipe(ChildPipe::Stdout)),
    }
}

/// What came of a task that forwards bytes: the failure of the task, or else that of the bridge.
pub type BridgeTaskResult = Result<Result<(), ServeError>, String>;

/// What ends the bridge.
pub enum BridgeEvent {
    /// The agent's process ended, or could not be waited for.
    ChildExited(Result<ProcessStatus, IoError>),
    /// The task that forwards the agent's output ended.
    StdoutEnded(BridgeTaskResult),
    /// The task that forwards the client's bytes ended.
    StdinEnded(BridgeTaskResult),
}

/// The agent's process has ended, and the rest of its output is awaited. Only the functions of
/// this module make such a step.
pub struct AwaitStdoutStep {
    status: ProcessStatus,
}

/// The end of the agent's process is awaited. Only [`serve_prepared_command`] makes such a step.
pub struct AwaitChildStep {
    stdout_ended: bool,
}

/// A task is stopped, and the agent's process is ended. Only [`serve_prepared_command`] makes such
/// a step.
pub struct TerminateStep {
    error: ServeError,
}

/// What is done when the bridge ends.
pub enum BridgeStep {
    /// The service is over.
    Finished(Result<ProcessStatus, ServeError>),
    /// The task that forwards the client's bytes is stopped, and the one that forwards the agent's
    /// output awaited.
    AbortStdinAndAwaitStdout(AwaitStdoutStep),
    /// The end of the agent's process is awaited.
    AwaitChild(AwaitChildStep),
    /// The task that forwards the client's bytes is stopped, and the agent's process is ended.
    AbortStdinAndTerminate(TerminateStep),
    /// The task that forwards the agent's output is stopped, and the agent's process is ended.
    AbortStdoutAndTerminate(TerminateStep),
}

/// Handles what ends the bridge.
pub fn serve_prepared_command(event: BridgeEvent) -> (step: BridgeStep)
    ensures
        match event {
            BridgeEvent::ChildExited(Ok(status)) => step matches BridgeStep::AbortStdinAndAwaitStdout(
                next,
            ) && next.child_status() == status,
            BridgeEvent::ChildExited(Err(e)) => step == BridgeStep::Finished(
                Err(ServeError::ChildWait(e)),
            ),
            BridgeEvent::StdoutEnded(Ok(Ok(()))) => step matches BridgeStep::AwaitChild(next)
                && next.output_ended(),
            BridgeEvent::StdoutEnded(Ok(Err(e))) => step matches BridgeStep::AbortStdinAndTerminate(
                next,
            ) && next.failure() == e,
            BridgeEvent::StdoutEnded(Err(e)) => step == BridgeStep::Finished(
                Err(ServeError::Join(e)),
            ),
            BridgeEvent::StdinEnded(Ok(Ok(()))) => step matches BridgeStep::AwaitChild(next)
                && !next.output_ended(),
            BridgeEvent::StdinEnded(Ok(Err(e))) => step matches BridgeStep::AbortStdoutAndTerminate(
                next,
            ) && next.failure() == e,
            BridgeEvent::StdinEnded(Err(e)) => step matches BridgeStep::AbortStdoutAndTerminate(
                next,
            ) && next.failure() == ServeError::Join(e),
        },
{
    match event {
        BridgeEvent::ChildExited(Ok(status)) => BridgeStep::AbortStdinAndAwaitStdout(
            AwaitStdoutStep { status },
        ),
        BridgeEvent::ChildExited(Err(error)) => BridgeStep::Finished(
            Err(ServeError::ChildWait(error)),
        ),
        BridgeEvent::StdoutEnded(result) => handle_stdout_completion(result),
        BridgeEvent::StdinEnded(result) => handle_stdin_completion(result),
    }
}

/// Handles the end of the task that forwards the agent's output.
pub fn handle_stdout_completion(result: BridgeTaskResult) -> (step: BridgeStep)
    ensures
        match result {
            Ok(Ok(())) => step matches BridgeStep::AwaitChild(next) && next.output_ended(),
            Ok(Err(e)) => step matches BridgeStep::AbortStdinAndTerminate(next) && next.failure()
                == e,
            Err(e) => step == BridgeStep::Finished(Err(ServeError::Join(e))),
        },
{
    match result {
        Ok(Ok(())) => BridgeStep::AwaitChild(AwaitChildStep { stdout_ended: true }),
        Ok(Err(error)) => BridgeStep::AbortStdinAndTerminate(TerminateStep { error }),
        Err(error) => BridgeStep::Finished(Err(ServeError::Join(error))),
    }
}

/// Handles the end of the task that forwards the client's bytes.
pub fn handle_stdin_completion(result: BridgeTaskResult) -> (step: BridgeStep)
    ensures
        match result {
            Ok(Ok(())) => step matches BridgeStep::AwaitChild(next) && !next.output_ended(),
            Ok(Err(e)) => step matches BridgeStep::AbortStdoutAndTerminate(next) && next.failure()
                == e,
            Err(e) => step matches BridgeStep::AbortStdoutAndTerminate(next) && next.failure()
                == ServeError::Join(e),
        },
{
    match result {
        Ok(Ok(())) => BridgeStep::AwaitChild(AwaitChildStep { stdout_ended: false }),
        Ok(Err(error)) => BridgeStep::AbortStdoutAndTerminate(TerminateStep { error }),
        Err(error) => BridgeStep::AbortStdoutAndTerminate(
            TerminateStep { error: ServeError::Join(error) },
        ),
    }
}

/// What is done once the end of the agent's process was awaited.
pub enum ChildNext {
    /// The service is over; the task that forwards the client's bytes is stopped where the process
    /// has ended.
    Finished(Result<ProcessStatus, ServeError>),
    /// The task that forwards the agent's output is awaited.
    AwaitStdout(AwaitStdoutStep),
}

impl AwaitChildStep {
    /// Whether the agent's output has ended.
    pub closed spec fn output_ended(self) -> bool {
        self.stdout_ended
    }

    /// Takes how the agent's process ended.
    pub fn waited(self, outcome: Result<ProcessStatus, IoError>) -> (next: ChildNext)
        ensures
            match outcome {
                Err(e) => next == ChildNext::Finished(Err(ServeError::ChildWait(e))),
                Ok(status) => if self.output_ended() {
                    next == ChildNext::Finished(Ok(status))
                } else {
                    next matches ChildNext::AwaitStdout(step) && step.child_status() == status
                },
            },
    {
        match outcome {
            Err(error) => ChildNext::Finished(Err(ServeError::ChildWait(error))),
            Ok(status) => {
                if self.stdout_ended {
                    ChildNext::Finished(Ok(status))
                } else {
                    ChildNext::AwaitStdout(AwaitStdoutStep { status })
                }
            },
        }
    }
}

impl AwaitStdoutStep {
    /// How the agent's process ended.
    pub closed spec fn child_status(self) -> ProcessStatus {
        self.status
    }

    /// Takes what came of the task that forwards the agent's output.
    pub fn joined(self, outcome: BridgeTaskResult) -> (status: Result<ProcessStatus, ServeError>)
        ensures
            status == match outcome {
                Ok(Ok(())) => Ok::<ProcessStatus, ServeError>(self.child_status()),
                Ok(Err(e)) => Err(e),
                Err(e) => Err(ServeError::Join(e)),
            },
    {
        match outcome {
            Ok(Ok(())) => Ok(self.status),
            Ok(Err(error)) => Err(error),
            Err(error) => Err(ServeError::Join(error)),
        }
    }
}

impl TerminateStep {
    /// The failure that led to ending the agent's process.
    pub closed spec fn failure(self) -> ServeError {
        self.error
    }

    /// Takes what came of ending the agent's process. A failure to end it is reported instead of
    /// the one that led to it.
    pub fn abort_task_and_terminate_child(self, ended: Result<(), ServeError>) -> (error: ServeError)
        ensures
            error == match ended {
                Ok(()) => self.failure(),
                Err(e) => e,
            },
    {
        match ended {
            Ok(()) => self.error,
            Err(error) => error,
        }
    }
}

/// What ending a process takes, after a look at whether it has ended.
pub enum Termination {
    /// Nothing is left to do.
    Ended(Result<(), ServeError>),
    /// The process is running and has to be killed, and then its end awaited.
    Kill(KillStep),
}

/// The process has to be killed, and then its end awaited. Only [`terminate_child`] makes such a
/// step.
pub struct KillStep {
    running: (),
}

/// Ends a process; `checked` is its status if it has ended already, and `None` if it has not.
pub fn terminate_child(checked: Result<Option<ProcessStatus>, IoError>) -> (step: Termination)
    ensures
        match checked {
            Ok(Some(_)) => step == Termination::Ended(Ok(())),
            Ok(None) => step is Kill,
            Err(e) => step == Termination::Ended(Err(ServeError::ChildWait(e))),
        },
{
    match checked {
        Ok(Some(_)) => Termination::Ended(Ok(())),
        Ok(None) => Termination::Kill(KillStep { running: () }),
        Err(error) => Termination::Ended(Err(ServeError::ChildWait(error))),
    }
}

impl KillStep {
    /// Takes what came of killing the process, and then of waiting for its end. Nothing is waited
    /// for if it could not be killed.
    pub fn killed(self, outcome: Result<Result<ProcessStatus, IoError>, IoError>) -> (ended: Result<
        (),
        ServeError,
    >)
        ensures
            ended == match outcome {
                Ok(Ok(_)) => Ok::<(), ServeError>(()),
                Ok(Err(e)) => Err(ServeError::ChildWait(e)),
                Err(e) => Err(ServeError::ChildWait(e)),
            },
    {
        match outcome {
            Ok(Ok(_)) => Ok(()),
            Ok(Err(error)) => Err(ServeError::ChildWait(error)),
            Err(error) => Err(ServeError::ChildWait(error)),
        }
    }
}

/// What is done with what was read of the agent's output.
pub enum ForwardStep {
    /// The bytes are written to the client and flushed; a failure ends the task, see
    /// [`forwarded`].
    Write(Vec<u8>),
    /// The task is over.
    Finished(Result<(), ServeError>),
}

/// Handles what was read of the agent's output: nothing if it has ended.
pub fn forward_reader_to_socket(read: Result<Vec<u8>, IoError>) -> (step: ForwardStep)
    ensures
        step == match read {
            Ok(bytes) => if bytes@.len() == 0 {
                ForwardStep::Finished(Ok(()))
            } else {
                ForwardStep::Write(bytes)
            },
            Err(e) => ForwardStep::Finished(Err(ServeError::BridgeIo(e))),
        },
{
    match read {
        Ok(bytes) => {
            if bytes.len() == 0 {
                ForwardStep::Finished(Ok(()))
            } else {
                ForwardStep::Write(bytes)
            }
        },
        Err(error) => ForwardStep::Finished(Err(ServeError::BridgeIo(error))),
    }
}

/// Takes what came of forwarding bytes, or of closing the agent's standard input.
pub fn forwarded(outcome: Result<(), IoError>) -> (done: Result<(), ServeError>)
    ensures
        done == match outcome {
            Ok(()) => Ok::<(), ServeError>(()),
            Err(e) => Err(ServeError::BridgeIo(e)),
        },
{
    match outcome {
        Ok(()) => Ok(()),
        Err(error) => Err(ServeError::BridgeIo(error)),
    }
}

// ---------------------------------------------------------------------------
// Laws
// ---------------------------------------------------------------------------

/// The description of a failed run is kept when the agent was to be served: it is both what the
/// error says and what lies behind it.
pub proof fn run_errors_keep_their_description(error: RunError)
    ensures
        ServeError::Run(error).text() == error.text(),
        ErrorSource::Run(&error).text() == error.text(),
{
}

/// What an error is about is shown in its description in full.
pub proof fn errors_show_what_they_are_about(error: ServeError)
    ensures
        match error {
            ServeError::Run(cause) => error.text() == cause.text(),
            ServeError::Bind { address, source } => text::occurs_in(error.text(), address@)
                && text::occurs_in(error.text(), source.message@),
            ServeError::Accept { address, source } => text::occurs_in(error.text(), address@)
                && text::occurs_in(error.text(), source.message@),
            ServeError::Spawn { program, source } => text::occurs_in(error.text(), program@)
                && text::occurs_in(error.text(), source.message@),
            ServeError::MissingChildPipe(pipe) => text::occurs_in(error.text(), pipe.label()),
            ServeError::BridgeIo(source) => text::occurs_in(error.text(), source.message@),
            ServeError::ChildWait(source) => text::occurs_in(error.text(), source.message@),
            ServeError::Join(cause) => text::occurs_in(error.text(), cause@),
        },
{
    let none = Seq::<char>::empty();
    match error {
        ServeError::Run(cause) => {},
        ServeError::Bind { address, source } => {
            let front = "Failed to bind TCP listener on "@ + address@ + ": "@;
            text::lemma_part_occurs("Failed to bind TCP listener on "@, address@, ": "@);
            text::lemma_occurs_further(none, front, source.message@, address@);
            text::lemma_ending_occurs(front, source.message@);
        },
        ServeError::Accept { address, source } => {
            let front = "Failed to accept TCP connection on "@ + address@ + ": "@;
            text::lemma_part_occurs("Failed to accept TCP connection on "@, address@, ": "@);
            text::lemma_occurs_further(none, front, source.message@, address@);
            text::lemma_ending_occurs(front, source.message@);
        },
        ServeError::Spawn { program, source } => {
            let front = "Failed to spawn "@ + program@ + ": "@;
            text::lemma_part_occurs("Failed to spawn "@, program@, ": "@);
            text::lemma_occurs_further(none, front, source.message@, program@);
            text::lemma_ending_occurs(front, source.message@);
        },
        ServeError::MissingChildPipe(pipe) => {
            text::lemma_ending_occurs("Child process missing piped "@, pipe.label());
        },
        ServeError::BridgeIo(source) => {
            text::lemma_ending_occurs("TCP bridge failed: "@, source.message@);
        },
        ServeError::ChildWait(source) => {
            text::lemma_ending_occurs(
                "Failed while waiting on child process: "@,
                source.message@,
            );
        },
        ServeError::Join(cause) => {
            text::lemma_ending_occurs("Task join failed: "@, cause@);
        },
    }
}

} // verus!
