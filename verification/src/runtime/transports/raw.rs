//! Shared handling of a raw byte-stream connection: the client's bytes go to the agent's standard
//! input, and the agent's standard output goes to the client.
use vstd::prelude::*;
use vstd::string::*;

use crate::runtime::error::{Connection, RuntimeError};
use crate::runtime::process::{AfterTermination, ProcessStatus};

verus! {

/// How many seconds the agent may be silent once the client has ended its stream, before the client
/// is taken to be gone. A client that only ended its own side still receives what the agent writes.
pub const CLIENT_CLOSE_GRACE_SECONDS: u64 = 30;

/// Why a direction of the stream failed.
#[derive(Debug, Clone, PartialEq, Eq)]
pub enum PumpError {
    /// The client's bytes could not be brought to the agent.
    ClientToChild {
        /// What went wrong.
        cause: String,
    },
    /// The agent's standard input could not be closed.
    CloseChildStdin {
        /// What went wrong.
        cause: String,
    },
    /// The agent's output could not be brought to the client.
    ChildToClient {
        /// What went wrong.
        cause: String,
    },
    /// The stream to the client could not be closed.
    CloseClient {
        /// What went wrong.
        cause: String,
    },
}

impl PumpError {
    /// The text that describes the error.
    pub open spec fn text(self) -> Seq<char> {
        match self {
            PumpError::ClientToChild {
                cause,
            } => "failed to read from client stream or write to child stdin"@,
            PumpError::CloseChildStdin {
                cause,
            } => "failed to close child stdin after client EOF"@,
            PumpError::ChildToClient {
                cause,
            } => "failed to read from child stdout or write to client stream"@,
            PumpError::CloseClient {
                cause,
            } => "failed to close client stream after child stdout EOF"@,
        }
    }

    /// Describes the error.
    pub fn message(&self) -> (out: String)
        ensures
            out@ == self.text(),
    {
        match self {
            PumpError::ClientToChild { cause } => {
                "failed to read from client stream or write to child stdin".to_owned()
            },
            PumpError::CloseChildStdin { cause } => {
                "failed to close child stdin after client EOF".to_owned()
            },
            PumpError::ChildToClient { cause } => {
                "failed to read from child stdout or write to client stream".to_owned()
            },
            PumpError::CloseClient { cause } => {
                "failed to close client stream after child stdout EOF".to_owned()
            },
        }
    }
}

/// Every byte of the client was brought to the agent, and its standard input has to be closed.
pub struct CloseStdinStep {
    copied: (),
}

/// The client has ended its stream, and the agent's standard input was closed. From now on the
/// connection lasts for as long as the agent writes at least once in
/// [`CLIENT_CLOSE_GRACE_SECONDS`]. Only [`CloseStdinStep::closed`] makes one.
pub struct ClientDone {
    closed: (),
}

/// Takes what came of copying the client's bytes to the agent until the client's end.
pub fn pump_stream_to_child_until_error(copied: Result<(), String>) -> (next: Result<
    CloseStdinStep,
    PumpError,
>)
    ensures
        match copied {
            Ok(()) => next is Ok,
            Err(e) => next == Err::<CloseStdinStep, PumpError>(
                PumpError::ClientToChild { cause: e },
            ),
        },
{
    match copied {
        Ok(()) => Ok(CloseStdinStep { copied: () }),
        Err(cause) => Err(PumpError::ClientToChild { cause }),
    }
}

impl CloseStdinStep {
    /// Takes what came of closing the agent's standard input.
    pub fn closed(self, outcome: Result<(), String>) -> (next: Result<ClientDone, PumpError>)
        ensures
            match outcome {
                Ok(()) => next is Ok,
                Err(e) => next == Err::<ClientDone, PumpError>(
                    PumpError::CloseChildStdin { cause: e },
                ),
            },
    {
        match outcome {
            Ok(()) => Ok(ClientDone { closed: () }),
            Err(cause) => Err(PumpError::CloseChildStdin { cause }),
        }
    }
}

/// The agent's whole output was brought to the client, and the stream to it has to be closed.
pub struct CloseClientStep {
    copied: (),
}

/// Takes what came of copying the agent's output to the client until its end.
pub fn pump_child_to_stream(copied: Result<(), String>) -> (next: Result<
    CloseClientStep,
    PumpError,
>)
    ensures
        match copied {
            Ok(()) => next is Ok,
            Err(e) => next == Err::<CloseClientStep, PumpError>(
                PumpError::ChildToClient { cause: e },
            ),
        },
{
    match copied {
        Ok(()) => Ok(CloseClientStep { copied: () }),
        Err(cause) => Err(PumpError::ChildToClient { cause }),
    }
}

impl CloseClientStep {
    /// Takes what came of closing the stream to the client.
    pub fn closed(self, outcome: Result<(), String>) -> (done: Result<(), PumpError>)
        ensures
            match outcome {
                Ok(()) => done is Ok,
                Err(e) => done == Err::<(), PumpError>(PumpError::CloseClient { cause: e }),
            },
    {
        match outcome {
            Ok(()) => Ok(()),
            Err(cause) => Err(PumpError::CloseClient { cause }),
        }
    }
}

/// What ends the service of a raw stream. The end of the client's stream alone does not.
pub enum RawEvent {
    /// The agent's process ended, or could not be waited for.
    ChildExited(Result<ProcessStatus, String>),
    /// The direction from the client to the agent failed.
    StdinPumpFailed(PumpError),
    /// The direction from the agent to the client ended, or failed.
    StdoutPumpEnded(Result<(), PumpError>),
    /// The client is gone: it has ended its stream, and the agent was silent for
    /// [`CLIENT_CLOSE_GRACE_SECONDS`] since.
    ClientGone(ClientDone),
}

/// What is done when the service of a raw stream ends.
pub enum RawStep {
    /// The service is over.
    Finished(Result<ProcessStatus, RuntimeError>),
    /// The agent's process is ended.
    Terminate(AfterTermination),
}

/// Whether `error` says that the raw stream failed as `why` describes.
pub open spec fn is_raw_failure(error: RuntimeError, why: PumpError) -> bool {
    error matches RuntimeError::Transport { connection, reason } && connection
        == Connection::RawStream && reason@ == why.text()
}

fn raw_failure(why: &PumpError) -> (error: RuntimeError)
    ensures
        is_raw_failure(error, *why),
{
    RuntimeError::Transport { connection: Connection::RawStream, reason: why.message() }
}

/// Handles what ends the service of a raw stream. The process is ended unless it ended itself.
pub fn serve_raw_stream_connection(event: RawEvent) -> (step: RawStep)
    ensures
        step is Finished <==> event is ChildExited,
        match event {
            RawEvent::ChildExited(Ok(status)) => step == RawStep::Finished(Ok(status)),
            RawEvent::ChildExited(Err(cause)) => step == RawStep::Finished(
                Err(RuntimeError::WaitChild { cause }),
            ),
            RawEvent::StdinPumpFailed(why) => step matches RawStep::Terminate(
                AfterTermination::Fail(error),
            ) && is_raw_failure(error, why),
            RawEvent::StdoutPumpEnded(Ok(())) => step == RawStep::Terminate(
                AfterTermination::Report,
            ),
            RawEvent::StdoutPumpEnded(Err(why)) => step matches RawStep::Terminate(
                AfterTermination::Fail(error),
            ) && is_raw_failure(error, why),
            RawEvent::ClientGone(_) => step == RawStep::Terminate(AfterTermination::Report),
        },
{
    match event {
        RawEvent::ChildExited(Ok(status)) => RawStep::Finished(Ok(status)),
        RawEvent::ChildExited(Err(cause)) => RawStep::Finished(
            Err(RuntimeError::WaitChild { cause }),
        ),
        RawEvent::StdinPumpFailed(why) => RawStep::Terminate(
            AfterTermination::Fail(raw_failure(&why)),
        ),
        RawEvent::StdoutPumpEnded(Ok(())) => RawStep::Terminate(AfterTermination::Report),
        RawEvent::StdoutPumpEnded(Err(why)) => RawStep::Terminate(
            AfterTermination::Fail(raw_failure(&why)),
        ),
        RawEvent::ClientGone(_) => RawStep::Terminate(AfterTermination::Report),
    }
}

impl ClientDone {
    /// Takes how the agent's process ended; `None` if the agent was silent for
    /// [`CLIENT_CLOSE_GRACE_SECONDS`] instead. Then the client is gone, and the process is ended.
    pub fn waited(self, exit: Option<Result<ProcessStatus, String>>) -> (step: RawStep)
        ensures
            step == match exit {
                Some(Ok(status)) => RawStep::Finished(Ok(status)),
                Some(Err(cause)) => RawStep::Finished(Err(RuntimeError::WaitChild { cause })),
                None => RawStep::Terminate(AfterTermination::Report),
            },
    {
        match exit {
            Some(outcome) => serve_raw_stream_connection(RawEvent::ChildExited(outcome)),
            None => serve_raw_stream_connection(RawEvent::ClientGone(self)),
        }
    }
}

// ---------------------------------------------------------------------------
// Laws
// ---------------------------------------------------------------------------

/// A raw stream that failed is reported as such, with the whole description of what failed.
pub proof fn failures_say_what_failed(error: RuntimeError, why: PumpError)
    requires
        is_raw_failure(error, why),
    ensures
        error matches RuntimeError::Transport { connection, reason } && connection
            == Connection::RawStream && reason@ == why.text(),
        error.text() == "raw stream transport failed: "@ + why.text(),
{
}

} // verus!
