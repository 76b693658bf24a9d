//! WebSocket transport: one text frame is one JSON message.
//!
//! Inbound, each text frame has to be a JSON object without line breaks; it is written to the
//! agent's standard input followed by a newline. Outbound, the agent's output is split at
//! newlines, and each complete line that is not empty is sent as one text frame.
use vstd::prelude::*;
use vstd::string::*;
use vstd::utf8::*;

use crate::runtime::error::{Connection, Protocol, RuntimeError};
use crate::runtime::process::{AfterTermination, ProcessStatus};
use crate::runtime::transports::listen;
use crate::runtime::transports::listen::{
    accept_connection, open_listener, Announced, Announcement,
};
use crate::runtime::transports::ndjson;
use crate::runtime::transports::ndjson::LineSplitter;
use crate::text;
use crate::text::chars_of;
use crate::utf8;

verus! {

/// How many seconds the agent is given to finish once the client is gone.
pub const STDIN_CLOSE_GRACE_SECONDS: u64 = 5;

/// How many bytes are read at a time.
pub const READ_BUFFER_SIZE: usize = 8192;

// ---------------------------------------------------------------------------
// Listening
// ---------------------------------------------------------------------------

/// Takes what came of binding a WebSocket listener for `subject`, and how to announce it.
pub fn serve_ws<L>(
    subject: &str,
    host: &str,
    port: u16,
    outcome: Result<(L, Option<String>), String>,
) -> (opened: Result<Announced<L>, RuntimeError>)
    ensures
        listen::is_opened(
            Announcement::WebSocketFrames,
            Protocol::WebSocket,
            subject@,
            host@,
            port,
            outcome,
            opened,
        ),
{
    open_listener(Announcement::WebSocketFrames, Protocol::WebSocket, subject, host, port, outcome)
}

/// Takes what came of accepting the one WebSocket client.
pub fn accept_ws_client<S>(display_address: &str, outcome: Result<S, String>) -> (accepted: Result<
    S,
    RuntimeError,
>)
    ensures
        match (outcome, accepted) {
            (Ok(socket), Ok(connection)) => connection == socket,
            (Err(e), Err(RuntimeError::Accept { protocol, address, cause })) => protocol
                == Protocol::WebSocket && address@ == display_address@ && cause == e,
            _ => false,
        },
{
    accept_connection(Protocol::WebSocket, display_address, outcome)
}

/// Takes what came of the WebSocket handshake.
pub fn accept_ws_connection<W>(outcome: Result<W, String>) -> (accepted: Result<W, RuntimeError>)
    ensures
        match (outcome, accepted) {
            (Ok(stream), Ok(connection)) => connection == stream,
            (Err(e), Err(error)) => error == (RuntimeError::Handshake { cause: e }),
            _ => false,
        },
{
    match outcome {
        Ok(stream) => Ok(stream),
        Err(cause) => Err(RuntimeError::Handshake { cause }),
    }
}

// ---------------------------------------------------------------------------
// From the client to the agent
// ---------------------------------------------------------------------------

/// The kinds of JSON values.
#[derive(Debug, Clone, Copy, PartialEq, Eq, Structural)]
pub enum JsonKind {
    /// An array.
    Array,
    /// `true` or `false`.
    Bool,
    /// `null`.
    Null,
    /// A number.
    Number,
    /// An object.
    Object,
    /// A string.
    Text,
}

impl JsonKind {
    /// The name shown to people.
    pub open spec fn label(self) -> Seq<char> {
        match self {
            JsonKind::Array => "array"@,
            JsonKind::Bool => "bool"@,
            JsonKind::Null => "null"@,
            JsonKind::Number => "number"@,
            JsonKind::Object => "object"@,
            JsonKind::Text => "string"@,
        }
    }

    /// The name shown to people.
    pub fn name(self) -> (out: &'static str)
        ensures
            out@ == self.label(),
    {
        match self {
            JsonKind::Array => "array",
            JsonKind::Bool => "bool",
            JsonKind::Null => "null",
            JsonKind::Number => "number",
            JsonKind::Object => "object",
            JsonKind::Text => "string",
        }
    }
}

/// Why the direction from the client to the agent ended early.
#[derive(Debug, Clone, PartialEq, Eq)]
pub enum InboundError {
    /// The client's frames could not be read.
    Read {
        /// What went wrong.
        cause: String,
    },
    /// A frame holds a line break.
    ContainsNewline,
    /// A frame is not JSON.
    InvalidJson,
    /// A frame is JSON of another kind than an object.
    NotAnObject {
        /// The kind.
        kind: JsonKind,
    },
    /// A frame holds bytes instead of text.
    BinaryFrame,
    /// A message could not be written to the agent.
    WriteText {
        /// What went wrong.
        cause: String,
    },
    /// The end of a message could not be written to the agent.
    WriteNewline {
        /// What went wrong.
        cause: String,
    },
}

impl InboundError {
    /// The text that describes the error.
    pub open spec fn text(self) -> Seq<char> {
        match self {
            InboundError::Read { cause } => "WebSocket read error"@,
            InboundError::ContainsNewline => "WebSocket frame must not contain newlines (would corrupt NDJSON framing)"@,
            InboundError::InvalidJson => "WebSocket frame is not valid JSON"@,
            InboundError::NotAnObject {
                kind,
            } => "WebSocket frame JSON must be an object (got "@ + kind.label() + ")"@,
            InboundError::BinaryFrame => "WebSocket transport only accepts Text frames; Binary frame rejected"@,
            InboundError::WriteText { cause } => "failed to write to child stdin"@,
            InboundError::WriteNewline { cause } => "failed to write newline to child stdin"@,
        }
    }

    /// Describes the error.
    pub fn message(&self) -> (out: String)
        ensures
            out@ == self.text(),
    {
        match self {
            InboundError::Read { cause } => "WebSocket read error".to_owned(),
            InboundError::ContainsNewline => {
                "WebSocket frame must not contain newlines (would corrupt NDJSON framing)".to_owned()
            },
            InboundError::InvalidJson => "WebSocket frame is not valid JSON".to_owned(),
            InboundError::NotAnObject { kind } => {
                let mut out = "WebSocket frame JSON must be an object (got ".to_owned();
                out.append(kind.name());
                out.append(")");
                out
            },
            InboundError::BinaryFrame => {
                "WebSocket transport only accepts Text frames; Binary frame rejected".to_owned()
            },
            InboundError::WriteText { cause } => "failed to write to child stdin".to_owned(),
            InboundError::WriteNewline { cause } => {
                "failed to write newline to child stdin".to_owned()
            },
        }
    }
}

/// The kind of JSON value that `serde_json::from_str` reads from a text, or `None` if it reads
/// none.
pub uninterp spec fn json_kind(text: Seq<char>) -> Option<JsonKind>;

/// Trusted: the error of `serde_json`, which is only ever discarded.
#[verifier::external_type_specification]
#[verifier::external_body]
pub struct ExJsonError(serde_json::Error);

/// Trusted: `serde_json::from_str` into a `serde_json::Value`, of which only the kind is kept.
/// Whether it succeeds, and with which kind, depends on the text alone; on an empty text it
/// fails. What the accepted texts are, the JSON grammar says, and no clause here.
#[verifier::external_body]
fn parse_json_kind(text: &str) -> (kind: Result<JsonKind, serde_json::Error>)
    ensures
        json_kind(text@) == match kind {
            Ok(found) => Some(found),
            Err(_) => None,
        },
        text@.len() == 0 ==> kind is Err,
{
    serde_json::from_str::<serde_json::Value>(text).map(
        |value|
            match value {
                serde_json::Value::Array(_) => JsonKind::Array,
                serde_json::Value::Bool(_) => JsonKind::Bool,
                serde_json::Value::Null => JsonKind::Null,
                serde_json::Value::Number(_) => JsonKind::Number,
                serde_json::Value::Object(_) => JsonKind::Object,
                serde_json::Value::String(_) => JsonKind::Text,
            },
    )
}

/// Whether a text holds a line break.
pub open spec fn has_line_break(text: Seq<char>) -> bool {
    text.contains('\n') || text.contains('\r')
}

/// What is wrong with a frame's text, if anything; `kind` is the kind of JSON it holds, if it is
/// JSON.
pub open spec fn frame_error(text: Seq<char>, kind: Option<JsonKind>) -> Option<InboundError> {
    if has_line_break(text) {
        Some(InboundError::ContainsNewline)
    } else {
        match kind {
            None => Some(InboundError::InvalidJson),
            Some(JsonKind::Object) => None,
            Some(other) => Some(InboundError::NotAnObject { kind: other }),
        }
    }
}

fn contains_line_break(text: &str) -> (found: bool)
    ensures
        found == has_line_break(text@),
{
    let chars = chars_of(text);
    let mut i: usize = 0;
    while i < chars.len()
        invariant
            i <= chars.len(),
            chars@ == text@,
            forall|j: int| 0 <= j < i ==> chars@[j] != '\n' && chars@[j] != '\r',
        decreases chars.len() - i,
    {
        if chars[i] == '\n' || chars[i] == '\r' {
            assert(text@[i as int] == chars@[i as int]);
            return true;
        }
        i += 1;
    }
    false
}

/// Judges a frame's text, given the kind of JSON it holds, if it is JSON.
pub fn judge_inbound_message(text: &str, kind: Option<JsonKind>) -> (verdict: Result<
    (),
    InboundError,
>)
    ensures
        verdict == match frame_error(text@, kind) {
            None => Ok::<(), InboundError>(()),
            Some(error) => Err(error),
        },
        verdict is Ok <==> kind == Some(JsonKind::Object) && (forall|i: int|
            0 <= i < text@.len() ==> #[trigger] text@[i] != '\n' && text@[i] != '\r'),
{
    proof {
        refused_frames_have_one_reason(text@, kind);
    }
    if contains_line_break(text) {
        return Err(InboundError::ContainsNewline);
    }
    match kind {
        None => Err(InboundError::InvalidJson),
        Some(JsonKind::Object) => Ok(()),
        Some(other) => Err(InboundError::NotAnObject { kind: other }),
    }
}

/// Judges a frame's text. An accepted text can stand on a line of its own.
pub fn validate_inbound_ws_message(text: &str) -> (verdict: Result<(), InboundError>)
    ensures
        verdict == match frame_error(text@, json_kind(text@)) {
            None => Ok::<(), InboundError>(()),
            Some(error) => Err(error),
        },
        verdict is Ok <==> json_kind(text@) == Some(JsonKind::Object) && (forall|i: int|
            0 <= i < text@.len() ==> #[trigger] text@[i] != '\n' && text@[i] != '\r'),
        verdict is Ok ==> ndjson::is_message(text@),
{
    proof {
        accepted_frames_are_one_line_objects(text@);
    }
    if contains_line_break(text) {
        return judge_inbound_message(text, None);
    }
    match parse_json_kind(text) {
        Ok(kind) => judge_inbound_message(text, Some(kind)),
        Err(_) => judge_inbound_message(text, None),
    }
}

/// A frame of the client.
pub enum InboundFrame {
    /// Text.
    Text(String),
    /// Bytes.
    Binary,
    /// The client closes the connection.
    Close,
    /// A frame of the protocol itself, such as a ping.
    Control,
}

/// What the direction from the client to the agent waits for.
pub enum InboundEvent {
    /// A frame arrived.
    Frame(InboundFrame),
    /// The frames could not be read.
    ReadFailed(String),
    /// There are no more frames.
    End,
}

/// What the direction from the client to the agent does next.
pub enum InboundStep {
    /// A message is written to the agent.
    Write(WriteMessageStep),
    /// The next event is awaited.
    Continue,
    /// The direction is over: the client is gone.
    Finish,
    /// The direction failed.
    Fail(InboundError),
}

/// A message has to be written to the agent. Only [`pump_ws_to_child_stdin`] and
/// [`inbound_step`] make such a step.
pub struct WriteMessageStep {
    text: String,
}

/// The end of a message has to be written to the agent. Only
/// [`WriteMessageStep::text_written`] makes such a step.
pub struct WriteNewlineStep {
    written: (),
}

/// Handles what the direction from the client to the agent waits for, given the kind of JSON that
/// a text frame holds, if it is JSON.
pub fn inbound_step(event: InboundEvent, kind: Option<JsonKind>) -> (step: InboundStep)
    ensures
        match event {
            InboundEvent::Frame(InboundFrame::Text(frame)) => match frame_error(frame@, kind) {
                None => step matches InboundStep::Write(write) && write.message() == frame@,
                Some(error) => step == InboundStep::Fail(error),
            },
            InboundEvent::Frame(InboundFrame::Binary) => step == InboundStep::Fail(
                InboundError::BinaryFrame,
            ),
            InboundEvent::Frame(InboundFrame::Close) => step == InboundStep::Finish,
            InboundEvent::Frame(InboundFrame::Control) => step == InboundStep::Continue,
            InboundEvent::ReadFailed(cause) => step == InboundStep::Fail(
                InboundError::Read { cause },
            ),
            InboundEvent::End => step == InboundStep::Finish,
        },
{
    match event {
        InboundEvent::Frame(InboundFrame::Text(text)) => {
            match judge_inbound_message(text.as_str(), kind) {
                Ok(()) => InboundStep::Write(WriteMessageStep { text }),
                Err(error) => InboundStep::Fail(error),
            }
        },
        InboundEvent::Frame(InboundFrame::Binary) => InboundStep::Fail(InboundError::BinaryFrame),
        InboundEvent::Frame(InboundFrame::Close) => InboundStep::Finish,
        InboundEvent::Frame(InboundFrame::Control) => InboundStep::Continue,
        InboundEvent::ReadFailed(cause) => InboundStep::Fail(InboundError::Read { cause }),
        InboundEvent::End => InboundStep::Finish,
    }
}

/// Handles what the direction from the client to the agent waits for. A message that is written
/// can stand on a line of its own.
pub fn pump_ws_to_child_stdin(event: InboundEvent) -> (step: InboundStep)
    ensures
        match event {
            InboundEvent::Frame(InboundFrame::Text(frame)) => match frame_error(
                frame@,
                json_kind(frame@),
            ) {
                None => step matches InboundStep::Write(write) && write.message() == frame@
                    && ndjson::is_message(frame@),
                Some(error) => step == InboundStep::Fail(error),
            },
            InboundEvent::Frame(InboundFrame::Binary) => step == InboundStep::Fail(
                InboundError::BinaryFrame,
            ),
            InboundEvent::Frame(InboundFrame::Close) => step == InboundStep::Finish,
            InboundEvent::Frame(InboundFrame::Control) => step == InboundStep::Continue,
            InboundEvent::ReadFailed(cause) => step == InboundStep::Fail(
                InboundError::Read { cause },
            ),
            InboundEvent::End => step == InboundStep::Finish,
        },
{
    match event {
        InboundEvent::Frame(InboundFrame::Text(text)) => {
            match validate_inbound_ws_message(text.as_str()) {
                Ok(()) => InboundStep::Write(WriteMessageStep { text }),
                Err(error) => InboundStep::Fail(error),
            }
        },
        other => inbound_step(other, None),
    }
}

impl WriteMessageStep {
    /// The message.
    pub closed spec fn message(self) -> Seq<char> {
        self.text@
    }

    /// The bytes to write.
    pub fn bytes(&self) -> (bytes: &[u8])
        ensures
            bytes@ == encode_utf8(self.message()),
    {
        self.text.as_str().as_bytes()
    }

    /// Takes what came of writing the message.
    pub fn text_written(self, outcome: Result<(), String>) -> (next: Result<
        WriteNewlineStep,
        InboundError,
    >)
        ensures
            match outcome {
                Ok(()) => next is Ok,
                Err(e) => next == Err::<WriteNewlineStep, InboundError>(
                    InboundError::WriteText { cause: e },
                ),
            },
    {
        match outcome {
            Ok(()) => Ok(WriteNewlineStep { written: () }),
            Err(cause) => Err(InboundError::WriteText { cause }),
        }
    }
}

impl WriteNewlineStep {
    /// The byte to write.
    pub fn byte(&self) -> (byte: u8)
        ensures
            byte == ndjson::NEWLINE,
    {
        ndjson::NEWLINE
    }

    /// Takes what came of writing the newline.
    pub fn newline_written(self, outcome: Result<(), String>) -> (done: Result<(), InboundError>)
        ensures
            match outcome {
                Ok(()) => done is Ok,
                Err(e) => done == Err::<(), InboundError>(
                    InboundError::WriteNewline { cause: e },
                ),
            },
    {
        match outcome {
            Ok(()) => Ok(()),
            Err(cause) => Err(InboundError::WriteNewline { cause }),
        }
    }
}

// ---------------------------------------------------------------------------
// From the agent to the client
// ---------------------------------------------------------------------------

/// Why the direction from the agent to the client failed.
#[derive(Debug, Clone, PartialEq, Eq)]
pub enum OutboundError {
    /// The agent's output could not be read.
    Read {
        /// What went wrong.
        cause: String,
    },
    /// The agent's output ended inside a line.
    UnterminatedLine,
    /// The agent's output is not UTF-8.
    InvalidUtf8,
    /// A frame could not be sent.
    Send {
        /// What went wrong.
        cause: String,
    },
}

impl OutboundError {
    /// The text that describes the error.
    pub open spec fn text(self) -> Seq<char> {
        match self {
            OutboundError::Read { cause } => "failed to read from child stdout"@,
            OutboundError::UnterminatedLine => "child stdout closed with unterminated line (missing trailing newline)"@,
            OutboundError::InvalidUtf8 => "child stdout contains invalid UTF-8 data"@,
            OutboundError::Send { cause } => "failed to send WebSocket frame"@,
        }
    }

    /// Describes the error.
    pub fn message(&self) -> (out: String)
        ensures
            out@ == self.text(),
    {
        match self {
            OutboundError::Read { cause } => "failed to read from child stdout".to_owned(),
            OutboundError::UnterminatedLine => {
                "child stdout closed with unterminated line (missing trailing newline)".to_owned()
            },
            OutboundError::InvalidUtf8 => "child stdout contains invalid UTF-8 data".to_owned(),
            OutboundError::Send { cause } => "failed to send WebSocket frame".to_owned(),
        }
    }
}

/// What the direction from the agent to the client does next.
pub enum OutboundStep {
    /// The messages are sent, one frame each, in order.
    Send(Vec<String>),
    /// The connection is closed: the output has ended.
    Close,
    /// The direction failed.
    Fail(OutboundError),
}

/// Handles what was read of the agent's output: nothing if it has ended. `splitter` holds the
/// line that is still open.
pub fn pump_child_stdout_to_ws(splitter: &mut LineSplitter, read: Result<Vec<u8>, String>) -> (step:
    OutboundStep)
    ensures
        match read {
            Ok(chunk) => if chunk@.len() == 0 {
                &&& final(splitter)@ == old(splitter)@
                &&& step == if old(splitter)@.len() == 0 {
                    OutboundStep::Close
                } else {
                    OutboundStep::Fail(OutboundError::UnterminatedLine)
                }
            } else if utf8::utf8_prefix(old(splitter)@ + chunk@) {
                &&& step matches OutboundStep::Send(frames) && text::texts(frames@)
                    == ndjson::messages(old(splitter)@ + chunk@)
                &&& final(splitter)@ == ndjson::open_line(old(splitter)@ + chunk@)
            } else {
                &&& step == OutboundStep::Fail(OutboundError::InvalidUtf8)
                &&& final(splitter)@ == old(splitter)@
            },
            Err(cause) => {
                &&& step == OutboundStep::Fail(OutboundError::Read { cause })
                &&& final(splitter)@ == old(splitter)@
            },
        },
{
    match read {
        Ok(chunk) => {
            if chunk.len() == 0 {
                match splitter.finish() {
                    Ok(()) => OutboundStep::Close,
                    Err(_) => OutboundStep::Fail(OutboundError::UnterminatedLine),
                }
            } else {
                match splitter.push(chunk.as_slice()) {
                    Ok(frames) => OutboundStep::Send(frames),
                    Err(_) => OutboundStep::Fail(OutboundError::InvalidUtf8),
                }
            }
        },
        Err(cause) => OutboundStep::Fail(OutboundError::Read { cause }),
    }
}

/// Takes what came of sending a frame.
pub fn frame_sent(outcome: Result<(), String>) -> (sent: Result<(), OutboundError>)
    ensures
        match outcome {
            Ok(()) => sent is Ok,
            Err(e) => sent == Err::<(), OutboundError>(OutboundError::Send { cause: e }),
        },
{
    match outcome {
        Ok(()) => Ok(()),
        Err(cause) => Err(OutboundError::Send { cause }),
    }
}

// ---------------------------------------------------------------------------
// The end of the service
// ---------------------------------------------------------------------------

/// What ends the service of a WebSocket connection.
pub enum WsEvent {
    /// The client is gone, or the direction from it failed.
    InboundEnded(Result<(), InboundError>),
    /// The agent's output has ended, or the direction to the client failed.
    OutboundEnded(Result<(), OutboundError>),
}

/// What is done when the service of a WebSocket connection ends.
pub enum WsStep {
    /// The agent's process is ended.
    Terminate(AfterTermination),
    /// The agent's standard input is closed, and the rest of its output is awaited for
    /// [`STDIN_CLOSE_GRACE_SECONDS`].
    CloseStdin(OutputGraceStep),
}

/// The agent is given time to finish its output. Only [`serve_ws_connection`] makes such a step.
pub struct OutputGraceStep {
    closed: (),
}

/// The agent is given time to end. Only [`OutputGraceStep::drained`] makes such a step.
pub struct ExitGraceStep {
    drained: (),
}

/// Whether `error` says that the WebSocket connection failed as `why` describes.
pub open spec fn is_ws_failure(error: RuntimeError, why: Seq<char>) -> bool {
    error matches RuntimeError::Transport { connection, reason } && connection
        == Connection::WebSocket && reason@ == why
}

fn ws_failure(why: String) -> (error: RuntimeError)
    ensures
        is_ws_failure(error, why@),
{
    RuntimeError::Transport { connection: Connection::WebSocket, reason: why }
}

/// Handles what ends the service of a WebSocket connection. An agent whose client went away in
/// good order may finish; in every other case its process is ended.
pub fn serve_ws_connection(event: WsEvent) -> (step: WsStep)
    ensures
        match event {
            WsEvent::InboundEnded(Ok(())) => step is CloseStdin,
            WsEvent::InboundEnded(Err(why)) => step matches WsStep::Terminate(
                AfterTermination::Fail(error),
            ) && is_ws_failure(error, why.text()),
            WsEvent::OutboundEnded(Ok(())) => step == WsStep::Terminate(AfterTermination::Report),
            WsEvent::OutboundEnded(Err(why)) => step matches WsStep::Terminate(
                AfterTermination::Fail(error),
            ) && is_ws_failure(error, why.text()),
        },
{
    match event {
        WsEvent::InboundEnded(Ok(())) => WsStep::CloseStdin(OutputGraceStep { closed: () }),
        WsEvent::InboundEnded(Err(why)) => WsStep::Terminate(
            AfterTermination::Fail(ws_failure(why.message())),
        ),
        WsEvent::OutboundEnded(Ok(())) => WsStep::Terminate(AfterTermination::Report),
        WsEvent::OutboundEnded(Err(why)) => WsStep::Terminate(
            AfterTermination::Fail(ws_failure(why.message())),
        ),
    }
}

/// What became of the agent's output in the time it was given.
pub enum OutputGrace {
    /// It ended, or the direction to the client failed.
    Ended(Result<(), OutboundError>),
    /// It did not end in time.
    TimedOut,
}

/// What is done once the agent's output was awaited.
pub enum OutputGraceNext {
    /// The end of the agent's process is awaited for [`STDIN_CLOSE_GRACE_SECONDS`].
    AwaitExit(ExitGraceStep),
    /// The agent's process is ended, however that goes, and then its end is awaited for
    /// [`STDIN_CLOSE_GRACE_SECONDS`].
    TerminateAndAwaitExit(ExitGraceStep),
    /// The agent's process is ended.
    Terminate(AfterTermination),
}

impl OutputGraceStep {
    /// Takes what became of the agent's output.
    pub fn drained(self, grace: OutputGrace) -> (next: OutputGraceNext)
        ensures
            match grace {
                OutputGrace::Ended(Ok(())) => next is AwaitExit,
                OutputGrace::Ended(Err(why)) => next matches OutputGraceNext::Terminate(
                    AfterTermination::Fail(error),
                ) && is_ws_failure(error, why.text()),
                OutputGrace::TimedOut => next is TerminateAndAwaitExit,
            },
    {
        match grace {
            OutputGrace::Ended(Ok(())) => OutputGraceNext::AwaitExit(
                ExitGraceStep { drained: () },
            ),
            OutputGrace::Ended(Err(why)) => OutputGraceNext::Terminate(
                AfterTermination::Fail(ws_failure(why.message())),
            ),
            OutputGrace::TimedOut => OutputGraceNext::TerminateAndAwaitExit(
                ExitGraceStep { drained: () },
            ),
        }
    }
}

/// What is done once the end of the agent's process was awaited.
pub enum ExitGraceNext {
    /// The service is over.
    Finished(ProcessStatus),
    /// The agent's process is ended.
    Terminate(AfterTermination),
}

impl ExitGraceStep {
    /// Takes how the agent's process ended; `None` if it did not end in time. A process that did
    /// not end in time, or could not be waited for, is ended.
    pub fn waited(self, exit: Option<Result<ProcessStatus, String>>) -> (next: ExitGraceNext)
        ensures
            next == match exit {
                Some(Ok(status)) => ExitGraceNext::Finished(status),
                _ => ExitGraceNext::Terminate(AfterTermination::Report),
            },
    {
        match exit {
            Some(Ok(status)) => ExitGraceNext::Finished(status),
            _ => ExitGraceNext::Terminate(AfterTermination::Report),
        }
    }
}

// ---------------------------------------------------------------------------
// Laws
// ---------------------------------------------------------------------------

/// A frame is accepted exactly if it is a JSON object of which no character is a line feed or a
/// carriage return. A backslash in it, and the letter of an escape, are characters like any other.
pub proof fn accepted_frames_are_one_line_objects(frame: Seq<char>)
    ensures
        frame_error(frame, json_kind(frame)) is None <==> json_kind(frame) == Some(JsonKind::Object)
            && !has_line_break(frame),
        frame_error(frame, json_kind(frame)) is None <==> json_kind(frame) == Some(JsonKind::Object)
            && (forall|i: int|
            0 <= i < frame.len() ==> #[trigger] frame[i] != '\n' && frame[i] != '\r'),
{
    lemma_line_breaks(frame);
}

proof fn lemma_line_breaks(text: Seq<char>)
    ensures
        has_line_break(text) <==> exists|i: int|
            0 <= i < text.len() && (#[trigger] text[i] == '\n' || text[i] == '\r'),
{
    if text.contains('\n') {
        let i = choose|i: int| 0 <= i < text.len() && text[i] == '\n';
        assert(text[i] == '\n');
    }
    if text.contains('\r') {
        let i = choose|i: int| 0 <= i < text.len() && text[i] == '\r';
        assert(text[i] == '\r');
    }
    if exists|i: int| 0 <= i < text.len() && (#[trigger] text[i] == '\n' || text[i] == '\r') {
        let i = choose|i: int|
            0 <= i < text.len() && (#[trigger] text[i] == '\n' || text[i] == '\r');
        assert(text.contains(text[i]));
    }
}

/// Every frame is refused for one reason: for a line feed or a carriage return if one of its
/// characters is one, else for not being JSON, else for being JSON of another kind than an object.
pub proof fn refused_frames_have_one_reason(frame: Seq<char>, kind: Option<JsonKind>)
    ensures
        (exists|i: int| 0 <= i < frame.len() && (#[trigger] frame[i] == '\n' || frame[i] == '\r'))
            <==> frame_error(frame, kind) == Some(InboundError::ContainsNewline),
        (forall|i: int| 0 <= i < frame.len() ==> #[trigger] frame[i] != '\n' && frame[i] != '\r')
            ==> {
            &&& kind is None <==> frame_error(frame, kind) == Some(InboundError::InvalidJson)
            &&& kind == Some(JsonKind::Object) <==> frame_error(frame, kind) is None
            &&& forall|other: JsonKind|
                kind == Some(other) && other != JsonKind::Object ==> #[trigger] frame_error(
                    frame,
                    Some(other),
                ) == Some(InboundError::NotAnObject { kind: other })
        },
{
    lemma_line_breaks(frame);
}

/// An accepted frame is written to the agent byte for byte, whatever it holds, and the newline
/// after it is the only one, so that the agent reads it as one line.
pub proof fn accepted_frames_are_written_as_one_line(frame: String, step: InboundStep)
    requires
        json_kind(frame@) == Some(JsonKind::Object),
        forall|i: int| 0 <= i < frame@.len() ==> #[trigger] frame@[i] != '\n' && frame@[i] != '\r',
        match frame_error(frame@, json_kind(frame@)) {
            None => step matches InboundStep::Write(write) && write.message() == frame@,
            Some(error) => step == InboundStep::Fail(error),
        },
    ensures
        step matches InboundStep::Write(write) && encode_utf8(write.message()) == encode_utf8(
            frame@,
        ),
        ndjson::NEWLINE == 10,
        forall|i: int|
            0 <= i < encode_utf8(frame@).len() ==> #[trigger] encode_utf8(frame@)[i] != 10,
{
    accepted_frames_are_one_line_objects(frame@);
    assert(!frame@.contains('\n'));
    ndjson::lemma_newline_encodes(frame@);
}

/// An agent that writes back every line it reads sends the client exactly the frames that it was
/// sent, in order, whatever the pieces in which its output is read. `sent` are frames that were
/// accepted.
pub proof fn echoed_frames_come_back(sent: Seq<Seq<char>>, pieces: Seq<Seq<u8>>)
    requires
        forall|i: int| 0 <= i < sent.len() ==> ndjson::is_message(#[trigger] sent[i]),
        pieces.flatten() == ndjson::message_lines(sent),
    ensures
        ndjson::received(Seq::empty(), pieces) == Some((sent, Seq::<u8>::empty())),
{
    let none = Seq::<u8>::empty();
    ndjson::messages_come_back(sent);
    assert(none + pieces.flatten() =~= ndjson::message_lines(sent));
    utf8::lemma_valid_is_prefix(ndjson::message_lines(sent));
    utf8::lemma_valid_is_prefix(none);
    ndjson::pieces_are_split_like_their_whole(none, pieces);
}

/// A WebSocket connection that failed is reported as such, with the whole description of what
/// failed.
pub proof fn failures_say_what_failed(error: RuntimeError, why: Seq<char>)
    requires
        is_ws_failure(error, why),
    ensures
        error matches RuntimeError::Transport { connection, reason } && connection
            == Connection::WebSocket && reason@ == why,
        error.text() == "WebSocket transport failed: "@ + why,
{
}

} // verus!
