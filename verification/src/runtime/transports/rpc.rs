//! JSON-RPC over WebSocket: calls that write and close the agent's standard input, and one
//! subscription to its standard output.
use vstd::prelude::*;
use vstd::string::*;

use crate::bytes::copy_bytes;
use crate::runtime::error::{Connection, RuntimeError};
use crate::runtime::process::ProcessStatus;

verus! {

/// The call that writes to the agent's standard input.
pub const WS_WRITE_STDIN_METHOD: &'static str = "write_stdin";

/// The call that closes the agent's standard input.
pub const WS_CLOSE_STDIN_METHOD: &'static str = "close_stdin";

/// The call that subscribes to the agent's standard output.
pub const WS_SUBSCRIBE_STDOUT_METHOD: &'static str = "subscribe_stdout";

/// The notification that carries the agent's output.
pub const WS_STDOUT_NOTIFICATION_METHOD: &'static str = "stdout";

/// The call that ends the subscription.
pub const WS_UNSUBSCRIBE_STDOUT_METHOD: &'static str = "unsubscribe_stdout";

/// How many clients may be connected.
pub const WS_MAX_CONNECTIONS: u32 = 1;

/// How many subscriptions a client may ask for.
pub const WS_MAX_SUBSCRIPTIONS: u32 = 8;

/// The error code of every refusal.
pub const WS_ERROR_CODE: i32 = -32000;

/// A chunk of a standard stream, as it is sent to and received from the client.
#[derive(Debug, Clone, PartialEq, Eq)]
pub struct StreamChunk {
    /// The bytes.
    pub data: Vec<u8>,
}

/// An error that is sent to the client.
#[derive(Debug, Clone, PartialEq, Eq)]
pub struct RpcError {
    /// The error code.
    pub code: i32,
    /// The description.
    pub message: String,
}

impl RpcError {
    /// Whether the error refuses a call with the given description.
    pub open spec fn says(self, message: Seq<char>) -> bool {
        self.code == WS_ERROR_CODE && self.message@ == message
    }
}

/// The error that refuses a call with the given description.
pub fn ws_internal_error(message: String) -> (error: RpcError)
    ensures
        error.says(message@),
{
    RpcError { code: WS_ERROR_CODE, message }
}

/// The agent's standard streams, as far as they were not handed out or closed yet.
pub struct WsStreamSession<I, O> {
    /// The agent's standard input, until it is closed.
    pub child_stdin: Option<I>,
    /// The agent's standard output, until it is subscribed to.
    pub child_stdout: Option<O>,
}

/// The agent's standard input has to be written to. Only [`WsStreamSession::write_stdin`] makes
/// such a step.
pub struct WriteStdinStep {
    data: Vec<u8>,
}

impl WriteStdinStep {
    /// The bytes that have to be written.
    pub closed spec fn wanted(self) -> Seq<u8> {
        self.data@
    }

    /// The bytes to write.
    pub fn bytes(&self) -> (bytes: &[u8])
        ensures
            bytes@ == self.wanted(),
    {
        self.data.as_slice()
    }

    /// Takes what came of writing all the bytes: their number is reported to the client.
    pub fn written(self, outcome: Result<(), String>) -> (reply: Result<usize, RpcError>)
        ensures
            match (outcome, reply) {
                (Ok(()), Ok(n)) => n == self.wanted().len(),
                (Err(cause), Err(error)) => error.says("failed to write stdin: "@ + cause@),
                _ => false,
            },
    {
        match outcome {
            Ok(()) => Ok(self.data.len()),
            Err(cause) => {
                let mut message = "failed to write stdin: ".to_owned();
                message.append(cause.as_str());
                Err(ws_internal_error(message))
            },
        }
    }
}

/// What closing the agent's standard input takes.
pub enum CloseStdin<I> {
    /// It was closed before; the client is told `false`.
    AlreadyClosed,
    /// It has to be closed; see [`stdin_closed`].
    Close(I),
}

/// Takes what came of closing the agent's standard input: the client is told `true`.
pub fn stdin_closed(outcome: Result<(), String>) -> (reply: Result<bool, RpcError>)
    ensures
        match (outcome, reply) {
            (Ok(()), Ok(closed)) => closed,
            (Err(cause), Err(error)) => error.says("failed to close stdin: "@ + cause@),
            _ => false,
        },
{
    match outcome {
        Ok(()) => Ok(true),
        Err(cause) => {
            let mut message = "failed to close stdin: ".to_owned();
            message.append(cause.as_str());
            Err(ws_internal_error(message))
        },
    }
}

/// What a subscription to the agent's standard output takes.
pub enum Subscription<O> {
    /// It is rejected.
    Reject(RpcError),
    /// It is accepted, and the output is streamed to it.
    Accept(O),
}

impl<I, O> WsStreamSession<I, O> {
    /// The session once the agent's standard input was closed.
    pub open spec fn stdin_taken(self) -> WsStreamSession<I, O> {
        WsStreamSession { child_stdin: None, child_stdout: self.child_stdout }
    }

    /// The session once the agent's standard output was subscribed to.
    pub open spec fn stdout_taken(self) -> WsStreamSession<I, O> {
        WsStreamSession { child_stdin: self.child_stdin, child_stdout: None }
    }

    /// Whether the agent's standard input can be written to.
    pub open spec fn accepts_writes(self) -> bool {
        self.child_stdin is Some
    }

    /// Whether the agent's standard output can be subscribed to.
    pub open spec fn accepts_subscription(self) -> bool {
        self.child_stdout is Some
    }

    /// The session of an agent that was just started.
    pub fn new(child_stdin: I, child_stdout: O) -> (session: WsStreamSession<I, O>)
        ensures
            session.child_stdin == Some(child_stdin),
            session.child_stdout == Some(child_stdout),
    {
        WsStreamSession { child_stdin: Some(child_stdin), child_stdout: Some(child_stdout) }
    }

    /// Begins to write `data` to the agent's standard input, which has to be open.
    pub fn write_stdin(&self, data: &[u8]) -> (step: Result<WriteStdinStep, RpcError>)
        ensures
            match step {
                Ok(write) => self.accepts_writes() && write.wanted() == data@,
                Err(error) => !self.accepts_writes() && error.says("stdin is closed"@),
            },
    {
        match &self.child_stdin {
            Some(_) => Ok(WriteStdinStep { data: copy_bytes(data) }),
            None => Err(ws_internal_error("stdin is closed".to_owned())),
        }
    }

    /// Takes the agent's standard input in order to close it, unless it was closed before.
    pub fn close_stdin(&mut self) -> (step: CloseStdin<I>)
        ensures
            *final(self) == old(self).stdin_taken(),
            step == match old(self).child_stdin {
                Some(stdin) => CloseStdin::Close(stdin),
                None => CloseStdin::AlreadyClosed,
            },
    {
        match self.child_stdin.take() {
            Some(stdin) => CloseStdin::Close(stdin),
            None => CloseStdin::AlreadyClosed,
        }
    }

    /// Takes the agent's standard output, unless it was taken before.
    pub fn take_stdout(&mut self) -> (stdout: Option<O>)
        ensures
            stdout == old(self).child_stdout,
            *final(self) == old(self).stdout_taken(),
    {
        self.child_stdout.take()
    }

    /// Begins a subscription to the agent's standard output. The first one gets it, and every
    /// later one is rejected.
    pub fn subscribe_stdout(&mut self) -> (subscription: Subscription<O>)
        ensures
            *final(self) == old(self).stdout_taken(),
            match old(self).child_stdout {
                Some(stdout) => subscription == Subscription::<O>::Accept(stdout),
                None => subscription matches Subscription::Reject(error) && error.says(
                    "stdout is already subscribed"@,
                ),
            },
    {
        match self.take_stdout() {
            Some(stdout) => Subscription::Accept(stdout),
            None => Subscription::Reject(
                ws_internal_error("stdout is already subscribed".to_owned()),
            ),
        }
    }
}

/// What a subscription waits for.
pub enum StdoutEvent {
    /// The client went away.
    SinkClosed,
    /// The agent's output was read; nothing if it has ended.
    Read(Result<Vec<u8>, String>),
    /// The last chunk was sent, or could not be.
    Sent(bool),
}

/// What a subscription does next.
pub enum StdoutStep {
    /// The chunk is sent to the client.
    Send(StreamChunk),
    /// The next event is awaited.
    Continue,
    /// The subscription is over.
    Stop,
}

/// What a subscription does after an event.
pub open spec fn stdout_step(event: StdoutEvent) -> StdoutStep {
    match event {
        StdoutEvent::SinkClosed => StdoutStep::Stop,
        StdoutEvent::Read(Ok(data)) => if data@.len() == 0 {
            StdoutStep::Stop
        } else {
            StdoutStep::Send(StreamChunk { data })
        },
        StdoutEvent::Read(Err(cause)) => StdoutStep::Stop,
        StdoutEvent::Sent(ok) => if ok {
            StdoutStep::Continue
        } else {
            StdoutStep::Stop
        },
    }
}

/// Handles what a subscription waits for.
pub fn stream_stdout_subscription(event: StdoutEvent) -> (step: StdoutStep)
    ensures
        step == stdout_step(event),
{
    match event {
        StdoutEvent::SinkClosed => StdoutStep::Stop,
        StdoutEvent::Read(Ok(data)) => {
            if data.len() == 0 {
                StdoutStep::Stop
            } else {
                StdoutStep::Send(StreamChunk { data })
            }
        },
        StdoutEvent::Read(Err(_)) => StdoutStep::Stop,
        StdoutEvent::Sent(ok) => {
            if ok {
                StdoutStep::Continue
            } else {
                StdoutStep::Stop
            }
        },
    }
}

/// The bytes that a subscription sends to the client in response to the given events.
pub open spec fn streamed_bytes(events: Seq<StdoutEvent>) -> Seq<u8>
    decreases events.len(),
{
    if events.len() == 0 {
        Seq::empty()
    } else {
        match stdout_step(events[0]) {
            StdoutStep::Send(chunk) => chunk.data@ + streamed_bytes(events.skip(1)),
            StdoutStep::Continue => streamed_bytes(events.skip(1)),
            StdoutStep::Stop => Seq::empty(),
        }
    }
}

/// What ends the service of a JSON-RPC connection.
pub enum RpcEvent {
    /// The agent's process ended, or could not be waited for.
    ChildExited(Result<ProcessStatus, String>),
    /// The client's session was closed.
    SessionClosed,
}

/// What is done when the service of a JSON-RPC connection ends.
pub enum RpcStep {
    /// The service is over.
    Finished(Result<ProcessStatus, RuntimeError>),
    /// The server is stopped, and the task that runs it is awaited.
    StopAndJoin(JoinStep),
    /// The server is stopped, and the agent's process is ended.
    StopAndTerminate(TerminateStep),
}

/// The agent's process has ended, and the server's task is awaited.
pub struct JoinStep {
    status: ProcessStatus,
}

/// The agent's process is being ended. Only [`serve_rpc_connection`] makes such a step.
pub struct TerminateStep {
    stopped: (),
}

/// Handles what ends the service of a JSON-RPC connection. The process is ended unless it ended
/// itself.
pub fn serve_rpc_connection(event: RpcEvent) -> (step: RpcStep)
    ensures
        step is StopAndTerminate <==> event is SessionClosed,
        match event {
            RpcEvent::ChildExited(Ok(status)) => step matches RpcStep::StopAndJoin(join)
                && join.child_status() == status,
            RpcEvent::ChildExited(Err(cause)) => step == RpcStep::Finished(
                Err(RuntimeError::WaitChild { cause }),
            ),
            RpcEvent::SessionClosed => step is StopAndTerminate,
        },
{
    match event {
        RpcEvent::ChildExited(Ok(status)) => RpcStep::StopAndJoin(JoinStep { status }),
        RpcEvent::ChildExited(Err(cause)) => RpcStep::Finished(
            Err(RuntimeError::WaitChild { cause }),
        ),
        RpcEvent::SessionClosed => RpcStep::StopAndTerminate(TerminateStep { stopped: () }),
    }
}

impl TerminateStep {
    /// Takes what came of ending the agent's process.
    pub fn terminated(self, ended: Result<ProcessStatus, RuntimeError>) -> (next: Result<
        JoinStep,
        RuntimeError,
    >)
        ensures
            match (ended, next) {
                (Ok(status), Ok(join)) => join.child_status() == status,
                (Err(cause), Err(error)) => error == cause,
                _ => false,
            },
    {
        match ended {
            Ok(status) => Ok(JoinStep { status }),
            Err(error) => Err(error),
        }
    }
}

impl JoinStep {
    /// How the agent's process ended.
    pub closed spec fn child_status(self) -> ProcessStatus {
        self.status
    }

    /// Takes what came of the server's task: the failure of the task, or else that of the
    /// connection, or else nothing, and then the end of the agent's process is reported.
    pub fn joined(self, outcome: Result<Result<(), String>, String>) -> (status: Result<
        ProcessStatus,
        RuntimeError,
    >)
        ensures
            status == match outcome {
                Ok(Ok(())) => Ok::<ProcessStatus, RuntimeError>(self.child_status()),
                Ok(Err(reason)) => Err(
                    RuntimeError::Transport { connection: Connection::WebSocket, reason },
                ),
                Err(cause) => Err(RuntimeError::JoinTransportTask { cause }),
            },
    {
        match outcome {
            Ok(Ok(())) => Ok(self.status),
            Ok(Err(reason)) => Err(
                RuntimeError::Transport { connection: Connection::WebSocket, reason },
            ),
            Err(cause) => Err(RuntimeError::JoinTransportTask { cause }),
        }
    }
}

// ---------------------------------------------------------------------------
// Laws
// ---------------------------------------------------------------------------

/// Closing the agent's standard input is final: later writes are refused and a later close finds
/// nothing to close. It does not touch the standard output.
pub proof fn closing_stdin_is_final<I, O>(session: WsStreamSession<I, O>)
    ensures
        !session.stdin_taken().accepts_writes(),
        session.stdin_taken().stdin_taken() == session.stdin_taken(),
        session.stdin_taken().child_stdin is None,
        session.stdin_taken().accepts_subscription() == session.accepts_subscription(),
{
}

/// The agent's standard output has at most one subscriber: once it was subscribed to, every later
/// subscription is rejected. It does not touch the standard input.
pub proof fn stdout_has_one_subscriber<I, O>(session: WsStreamSession<I, O>)
    ensures
        !session.stdout_taken().accepts_subscription(),
        session.stdout_taken().stdout_taken() == session.stdout_taken(),
        session.stdout_taken().accepts_writes() == session.accepts_writes(),
{
}

/// The events of a subscription to which each of the given chunks of output is sent.
pub open spec fn delivered_chunks(chunks: Seq<Vec<u8>>) -> Seq<StdoutEvent>
    decreases chunks.len(),
{
    if chunks.len() == 0 {
        Seq::empty()
    } else {
        seq![StdoutEvent::Read(Ok(chunks[0])), StdoutEvent::Sent(true)] + delivered_chunks(
            chunks.drop_first(),
        )
    }
}

/// A subscriber receives the agent's output byte for byte and in order, for as long as sending
/// succeeds, ahead of whatever follows later.
pub proof fn output_is_streamed_in_order(chunks: Seq<Vec<u8>>, later: Seq<StdoutEvent>)
    requires
        forall|i: int| 0 <= i < chunks.len() ==> (#[trigger] chunks[i])@.len() > 0,
    ensures
        streamed_bytes(delivered_chunks(chunks) + later) == chunks.map_values(
            |data: Vec<u8>| data@,
        ).flatten() + streamed_bytes(later),
    decreases chunks.len(),
{
    let bytes = |data: Vec<u8>| data@;
    let all = chunks.map_values(bytes).flatten();
    let events = delivered_chunks(chunks) + later;
    if chunks.len() == 0 {
        assert(events =~= later);
        assert(all + streamed_bytes(later) =~= streamed_bytes(later));
    } else {
        let rest = chunks.drop_first();
        output_is_streamed_in_order(rest, later);
        let others = rest.map_values(bytes).flatten();
        assert(chunks.map_values(bytes).drop_first() =~= rest.map_values(bytes));
        assert(all == chunks[0]@ + others);
        let tail = events.skip(1);
        assert(chunks[0]@.len() > 0);
        assert(events[0] == StdoutEvent::Read(Ok(chunks[0])));
        assert(tail[0] == StdoutEvent::Sent(true));
        assert(tail.skip(1) =~= delivered_chunks(rest) + later);
        assert(streamed_bytes(tail) == streamed_bytes(delivered_chunks(rest) + later));
        assert(streamed_bytes(events) == chunks[0]@ + streamed_bytes(tail));
        assert(chunks[0]@ + (others + streamed_bytes(later)) =~= chunks[0]@ + others
            + streamed_bytes(later));
    }
}

/// Each piece of the agent's output is sent to the subscriber as it is, and the subscription ends
/// only when the output does, cannot be read, or the client is gone.
pub proof fn each_piece_of_the_output_is_sent(
    data: Vec<u8>,
    cause: String,
    later: Seq<StdoutEvent>,
)
    ensures
        data@.len() > 0 ==> stdout_step(StdoutEvent::Read(Ok(data))) == StdoutStep::Send(
            StreamChunk { data },
        ),
        data@.len() == 0 ==> stdout_step(StdoutEvent::Read(Ok(data))) == StdoutStep::Stop,
        stdout_step(StdoutEvent::Read(Err(cause))) == StdoutStep::Stop,
        stdout_step(StdoutEvent::Sent(true)) == StdoutStep::Continue,
        stdout_step(StdoutEvent::Sent(false)) == StdoutStep::Stop,
        stdout_step(StdoutEvent::SinkClosed) == StdoutStep::Stop,
        data@.len() > 0 ==> streamed_bytes(seq![StdoutEvent::Read(Ok(data))] + later) == data@
            + streamed_bytes(later),
        streamed_bytes(seq![StdoutEvent::Sent(true)] + later) == streamed_bytes(later),
        streamed_bytes(Seq::empty()) == Seq::<u8>::empty(),
{
    assert((seq![StdoutEvent::Read(Ok(data))] + later).skip(1) =~= later);
    assert((seq![StdoutEvent::Sent(true)] + later).skip(1) =~= later);
}

/// Closing the agent's input takes the input and nothing else from the session, and subscribing to
/// the output takes the output and nothing else.
pub proof fn calls_take_their_own_stream_only<I, O>(session: WsStreamSession<I, O>)
    ensures
        session.accepts_writes() <==> session.child_stdin is Some,
        session.accepts_subscription() <==> session.child_stdout is Some,
        session.stdin_taken().child_stdin is None,
        session.stdin_taken().child_stdout == session.child_stdout,
        session.stdout_taken().child_stdout is None,
        session.stdout_taken().child_stdin == session.child_stdin,
{
}

/// The calls go by the names that clients know them by, one client is served, and every refusal has
/// the same code.
pub proof fn calls_go_by_their_names(message: Seq<char>, error: RpcError)
    requires
        error.says(message),
    ensures
        WS_WRITE_STDIN_METHOD@ == "write_stdin"@,
        WS_CLOSE_STDIN_METHOD@ == "close_stdin"@,
        WS_SUBSCRIBE_STDOUT_METHOD@ == "subscribe_stdout"@,
        WS_STDOUT_NOTIFICATION_METHOD@ == "stdout"@,
        WS_UNSUBSCRIBE_STDOUT_METHOD@ == "unsubscribe_stdout"@,
        WS_MAX_CONNECTIONS == 1,
        WS_MAX_SUBSCRIPTIONS == 8,
        error.code == -32000,
        error.message@ == message,
{
}

} // verus!
