//! What can go wrong while an agent is prepared, launched or served.
use vstd::prelude::*;
use vstd::string::*;

use crate::registry::RegistryError;
use crate::text;
use crate::text::decimal_of;

verus! {

/// The protocol that a listener speaks.
#[derive(Debug, Clone, Copy, PartialEq, Eq, Structural)]
pub enum Protocol {
    /// A raw TCP byte stream.
    Tcp,
    /// HTTP/2.
    Http,
    /// WebSocket.
    WebSocket,
}

impl Protocol {
    /// The name shown to people.
    pub open spec fn label(self) -> Seq<char> {
        match self {
            Protocol::Tcp => "TCP"@,
            Protocol::Http => "HTTP"@,
            Protocol::WebSocket => "WebSocket"@,
        }
    }

    /// The name shown to people.
    pub fn name(self) -> (out: &'static str)
        ensures
            out@ == self.label(),
    {
        match self {
            Protocol::Tcp => "TCP",
            Protocol::Http => "HTTP",
            Protocol::WebSocket => "WebSocket",
        }
    }
}

/// The kind of connection that a transport failure ended.
#[derive(Debug, Clone, Copy, PartialEq, Eq, Structural)]
pub enum Connection {
    /// A raw byte stream.
    RawStream,
    /// An HTTP/2 connection.
    Http2,
    /// A WebSocket connection.
    WebSocket,
}

impl Connection {
    /// How a message about a failure of the connection begins.
    pub open spec fn failure_label(self) -> Seq<char> {
        match self {
            Connection::RawStream => "raw stream transport failed: "@,
            Connection::Http2 => "HTTP/2 connection failed: "@,
            Connection::WebSocket => "WebSocket transport failed: "@,
        }
    }

    fn failure_name(self) -> (out: &'static str)
        ensures
            out@ == self.failure_label(),
    {
        match self {
            Connection::RawStream => "raw stream transport failed: ",
            Connection::Http2 => "HTTP/2 connection failed: ",
            Connection::WebSocket => "WebSocket transport failed: ",
        }
    }
}

/// Where a listener was asked to bind, in the form shown to people.
pub open spec fn bind_target(host: Seq<char>, port: u16) -> Seq<char> {
    "host="@ + host + ", port="@ + text::decimal(port as nat)
}

/// Where a listener was asked to bind, in the form shown to people.
pub fn bind_target_display(host: &str, port: u16) -> (out: String)
    ensures
        out@ == bind_target(host@, port),
{
    let mut out = "host=".to_owned();
    out.append(host);
    out.append(", port=");
    out.append(decimal_of(port as u64).as_str());
    out
}

/// Why an agent could not be prepared, launched or served. Where an outside operation failed,
/// `cause` is its own description.
#[derive(Debug, Clone, PartialEq, Eq)]
pub enum RuntimeError {
    /// The registry could not be used.
    Registry(RegistryError),
    /// The requested agent is not in the registry.
    UnresolvedAgent {
        /// The requested identifier.
        agent_id: String,
        /// What the registry says.
        cause: RegistryError,
    },
    /// The agent cannot be run on this platform.
    NoRunnableDistribution {
        /// The agent's identifier.
        agent_id: String,
    },
    /// The task that creates the temporary directory failed.
    TempDirTask {
        /// What went wrong.
        cause: String,
    },
    /// The temporary directory could not be created.
    TempDir {
        /// What went wrong.
        cause: String,
    },
    /// The archive could not be downloaded.
    Download {
        /// What went wrong.
        cause: String,
    },
    /// A directory could not be created.
    CreateDirectory {
        /// The directory.
        path: String,
        /// What went wrong.
        cause: String,
    },
    /// The archive could not be extracted.
    Extract {
        /// What went wrong.
        cause: String,
    },
    /// The archive does not hold the command that it should.
    MissingExecutable {
        /// The address of the archive.
        archive: String,
        /// The command.
        cmd: String,
        /// Where the command was looked for.
        path: String,
    },
    /// The command could not be made executable.
    MarkExecutable {
        /// The command's path.
        path: String,
        /// What went wrong.
        cause: String,
    },
    /// The agent's process could not be started.
    Spawn {
        /// The program.
        program: String,
        /// What the program was started for.
        subject: String,
        /// What went wrong.
        cause: String,
    },
    /// The agent's process could not be run.
    Run {
        /// The program.
        program: String,
        /// What the program was run for.
        subject: String,
        /// What went wrong.
        cause: String,
    },
    /// The agent's process has no standard input pipe.
    MissingStdin,
    /// The agent's process has no standard output pipe.
    MissingStdout,
    /// Whether the agent's process has ended could not be determined.
    CheckChild {
        /// What went wrong.
        cause: String,
    },
    /// The agent's process could not be killed.
    KillChild {
        /// What went wrong.
        cause: String,
    },
    /// The end of the agent's process could not be awaited.
    WaitChild {
        /// What went wrong.
        cause: String,
    },
    /// A listener could not be bound.
    Bind {
        /// The listener's protocol.
        protocol: Protocol,
        /// The requested host.
        host: String,
        /// The requested port.
        port: u16,
        /// What went wrong.
        cause: String,
    },
    /// No connection could be accepted.
    Accept {
        /// The listener's protocol.
        protocol: Protocol,
        /// The listener's address.
        address: String,
        /// What went wrong.
        cause: String,
    },
    /// The Unix socket's path is taken.
    SocketPathExists {
        /// The path.
        path: String,
    },
    /// The Unix socket could not be bound.
    BindSocket {
        /// The path.
        path: String,
        /// What went wrong.
        cause: String,
    },
    /// No connection could be accepted on the Unix socket.
    AcceptSocket {
        /// The path.
        path: String,
        /// What went wrong.
        cause: String,
    },
    /// The connection to the client failed.
    Transport {
        /// The kind of connection.
        connection: Connection,
        /// What went wrong.
        reason: String,
    },
    /// The WebSocket handshake failed.
    Handshake {
        /// What went wrong.
        cause: String,
    },
    /// The task that serves the WebSocket connection failed.
    JoinTransportTask {
        /// What went wrong.
        cause: String,
    },
}

impl RuntimeError {
    /// The text that describes the error.
    pub open spec fn text(self) -> Seq<char> {
        match self {
            RuntimeError::Registry(error) => error.text(),
            RuntimeError::UnresolvedAgent { agent_id, cause } => "failed to resolve agent \""@
                + agent_id@ + "\" from registry"@,
            RuntimeError::NoRunnableDistribution { agent_id } => "agent \""@ + agent_id@
                + "\" does not have a runnable distribution"@,
            RuntimeError::TempDirTask { cause } => "failed to create temporary directory task"@,
            RuntimeError::TempDir { cause } => "failed to create temporary directory"@,
            RuntimeError::Download { cause } => cause@,
            RuntimeError::CreateDirectory { path, cause } => "failed to create "@ + path@,
            RuntimeError::Extract { cause } => cause@,
            RuntimeError::MissingExecutable { archive, cmd, path } => "downloaded "@ + archive@
                + ", but could not find \""@ + cmd@ + "\" at "@ + path@,
            RuntimeError::MarkExecutable { path, cause } => "failed to mark "@ + path@
                + " executable"@,
            RuntimeError::Spawn { program, subject, cause } => "failed to spawn "@ + program@
                + " for "@ + subject@,
            RuntimeError::Run { program, subject, cause } => "failed to run "@ + program@
                + " for "@ + subject@,
            RuntimeError::MissingStdin => "child process missing piped stdin"@,
            RuntimeError::MissingStdout => "child process missing piped stdout"@,
            RuntimeError::CheckChild { cause } => "failed while checking child process status"@,
            RuntimeError::KillChild { cause } => "failed to terminate child process"@,
            RuntimeError::WaitChild { cause } => "failed while waiting on child process"@,
            RuntimeError::Bind { protocol, host, port, cause } => "failed to bind "@
                + protocol.label() + " listener on "@ + bind_target(host@, port),
            RuntimeError::Accept { protocol, address, cause } => "failed to accept "@
                + protocol.label() + " connection on "@ + address@,
            RuntimeError::SocketPathExists { path } => "refusing to bind Unix socket at "@ + path@
                + ": path already exists"@,
            RuntimeError::BindSocket { path, cause } => "failed to bind Unix socket listener at "@
                + path@,
            RuntimeError::AcceptSocket {
                path,
                cause,
            } => "failed to accept Unix socket connection on "@ + path@,
            RuntimeError::Transport { connection, reason } => connection.failure_label() + reason@,
            RuntimeError::Handshake { cause } => "WebSocket handshake failed"@,
            RuntimeError::JoinTransportTask { cause } => "failed to join WebSocket transport task"@,
        }
    }

    /// Describes the error.
    pub fn message(&self) -> (out: String)
        ensures
            out@ == self.text(),
    {
        match self {
            RuntimeError::Registry(error) => error.message(),
            RuntimeError::UnresolvedAgent { agent_id, cause } => {
                let mut out = "failed to resolve agent \"".to_owned();
                out.append(agent_id.as_str());
                out.append("\" from registry");
                out
            },
            RuntimeError::NoRunnableDistribution { agent_id } => {
                let mut out = "agent \"".to_owned();
                out.append(agent_id.as_str());
                out.append("\" does not have a runnable distribution");
                out
            },
            RuntimeError::TempDirTask { cause } => {
                "failed to create temporary directory task".to_owned()
            },
            RuntimeError::TempDir { cause } => "failed to create temporary directory".to_owned(),
            RuntimeError::Download { cause } => cause.clone(),
            RuntimeError::CreateDirectory { path, cause } => {
                let mut out = "failed to create ".to_owned();
                out.append(path.as_str());
                out
            },
            RuntimeError::Extract { cause } => cause.clone(),
            RuntimeError::MissingExecutable { archive, cmd, path } => {
                let mut out = "downloaded ".to_owned();
                out.append(archive.as_str());
                out.append(", but could not find \"");
                out.append(cmd.as_str());
                out.append("\" at ");
                out.append(path.as_str());
                out
            },
            RuntimeError::MarkExecutable { path, cause } => {
                let mut out = "failed to mark ".to_owned();
                out.append(path.as_str());
                out.append(" executable");
                out
            },
            RuntimeError::Spawn { program, subject, cause } => {
                let mut out = "failed to spawn ".to_owned();
                out.append(program.as_str());
                out.append(" for ");
                out.append(subject.as_str());
                out
            },
            RuntimeError::Run { program, subject, cause } => {
                let mut out = "failed to run ".to_owned();
                out.append(program.as_str());
                out.append(" for ");
                out.append(subject.as_str());
                out
            },
            RuntimeError::MissingStdin => "child process missing piped stdin".to_owned(),
            RuntimeError::MissingStdout => "child process missing piped stdout".to_owned(),
            RuntimeError::CheckChild { cause } => {
                "failed while checking child process status".to_owned()
            },
            RuntimeError::KillChild { cause } => "failed to terminate child process".to_owned(),
            RuntimeError::WaitChild { cause } => "failed while waiting on child process".to_owned(),
            RuntimeError::Bind { protocol, host, port, cause } => {
                let mut out = "failed to bind ".to_owned();
                out.append(protocol.name());
                out.append(" listener on ");
                out.append(bind_target_display(host.as_str(), *port).as_str());
                out
            },
            RuntimeError::Accept { protocol, address, cause } => {
                let mut out = "failed to accept ".to_owned();
                out.append(protocol.name());
                out.append(" connection on ");
                out.append(address.as_str());
                out
            },
            RuntimeError::SocketPathExists { path } => {
                let mut out = "refusing to bind Unix socket at ".to_owned();
                out.append(path.as_str());
                out.append(": path already exists");
                out
            },
            RuntimeError::BindSocket { path, cause } => {
                let mut out = "failed to bind Unix socket listener at ".to_owned();
                out.append(path.as_str());
                out
            },
            RuntimeError::AcceptSocket { path, cause } => {
                let mut out = "failed to accept Unix socket connection on ".to_owned();
                out.append(path.as_str());
                out
            },
            RuntimeError::Transport { connection, reason } => {
                let mut out = connection.failure_name().to_owned();
                out.append(reason.as_str());
                out
            },
            RuntimeError::Handshake { cause } => "WebSocket handshake failed".to_owned(),
            RuntimeError::JoinTransportTask { cause } => {
                "failed to join WebSocket transport task".to_owned()
            },
        }
    }

    /// The description of the failure that the error was given as its cause, if any.
    pub open spec fn cause_text(self) -> Option<Seq<char>> {
        match self {
            RuntimeError::UnresolvedAgent { agent_id, cause } => Some(cause.text()),
            RuntimeError::TempDirTask { cause } => Some(cause@),
            RuntimeError::TempDir { cause } => Some(cause@),
            RuntimeError::CreateDirectory { path, cause } => Some(cause@),
            RuntimeError::MarkExecutable { path, cause } => Some(cause@),
            RuntimeError::Spawn { program, subject, cause } => Some(cause@),
            RuntimeError::Run { program, subject, cause } => Some(cause@),
            RuntimeError::CheckChild { cause } => Some(cause@),
            RuntimeError::KillChild { cause } => Some(cause@),
            RuntimeError::WaitChild { cause } => Some(cause@),
            RuntimeError::Bind { protocol, host, port, cause } => Some(cause@),
            RuntimeError::Accept { protocol, address, cause } => Some(cause@),
            RuntimeError::BindSocket { path, cause } => Some(cause@),
            RuntimeError::AcceptSocket { path, cause } => Some(cause@),
            RuntimeError::Handshake { cause } => Some(cause@),
            RuntimeError::JoinTransportTask { cause } => Some(cause@),
            _ => None,
        }
    }

    /// The description of the failure that lies behind the error, if any.
    pub fn cause(&self) -> (out: Option<String>)
        ensures
            text::text_option(out) == self.cause_text(),
    {
        match self {
            RuntimeError::UnresolvedAgent { agent_id, cause } => Some(cause.message()),
            RuntimeError::TempDirTask { cause } => Some(cause.clone()),
            RuntimeError::TempDir { cause } => Some(cause.clone()),
            RuntimeError::CreateDirectory { path, cause } => Some(cause.clone()),
            RuntimeError::MarkExecutable { path, cause } => Some(cause.clone()),
            RuntimeError::Spawn { program, subject, cause } => Some(cause.clone()),
            RuntimeError::Run { program, subject, cause } => Some(cause.clone()),
            RuntimeError::CheckChild { cause } => Some(cause.clone()),
            RuntimeError::KillChild { cause } => Some(cause.clone()),
            RuntimeError::WaitChild { cause } => Some(cause.clone()),
            RuntimeError::Bind { protocol, host, port, cause } => Some(cause.clone()),
            RuntimeError::Accept { protocol, address, cause } => Some(cause.clone()),
            RuntimeError::BindSocket { path, cause } => Some(cause.clone()),
            RuntimeError::AcceptSocket { path, cause } => Some(cause.clone()),
            RuntimeError::Handshake { cause } => Some(cause.clone()),
            RuntimeError::JoinTransportTask { cause } => Some(cause.clone()),
            _ => None,
        }
    }
}

// ---------------------------------------------------------------------------
// Laws
// ---------------------------------------------------------------------------

/// Where a listener was asked to bind is shown with its host and its port in full.
pub proof fn bind_targets_show_host_and_port(host: Seq<char>, port: u16)
    ensures
        text::occurs_in(bind_target(host, port), host),
        text::occurs_in(bind_target(host, port), text::decimal(port as nat)),
{
    let number = text::decimal(port as nat);
    let front = "host="@ + host + ", port="@;
    text::lemma_part_occurs("host="@, host, ", port="@);
    text::lemma_occurs_further(Seq::empty(), front, number, host);
    text::lemma_ending_occurs(front, number);
}

/// What an error is about is shown in its description in full.
pub proof fn errors_show_what_they_are_about(error: RuntimeError)
    ensures
        match error {
            RuntimeError::Registry(cause) => error.text() == cause.text(),
            RuntimeError::UnresolvedAgent { agent_id, cause } => text::occurs_in(
                error.text(),
                agent_id@,
            ),
            RuntimeError::NoRunnableDistribution { agent_id } => text::occurs_in(
                error.text(),
                agent_id@,
            ),
            RuntimeError::Download { cause } => error.text() == cause@,
            RuntimeError::Extract { cause } => error.text() == cause@,
            RuntimeError::CreateDirectory { path, cause } => text::occurs_in(error.text(), path@),
            RuntimeError::MissingExecutable { archive, cmd, path } => text::occurs_in(
                error.text(),
                archive@,
            ) && text::occurs_in(error.text(), cmd@) && text::occurs_in(error.text(), path@),
            RuntimeError::MarkExecutable { path, cause } => text::occurs_in(error.text(), path@),
            RuntimeError::Spawn { program, subject, cause } => text::occurs_in(
                error.text(),
                program@,
            ) && text::occurs_in(error.text(), subject@),
            RuntimeError::Run { program, subject, cause } => text::occurs_in(error.text(), program@)
                && text::occurs_in(error.text(), subject@),
            RuntimeError::Bind { protocol, host, port, cause } => text::occurs_in(
                error.text(),
                host@,
            ) && text::occurs_in(error.text(), text::decimal(port as nat)),
            RuntimeError::Accept { protocol, address, cause } => text::occurs_in(
                error.text(),
                address@,
            ),
            RuntimeError::SocketPathExists { path } => text::occurs_in(error.text(), path@),
            RuntimeError::BindSocket { path, cause } => text::occurs_in(error.text(), path@),
            RuntimeError::AcceptSocket { path, cause } => text::occurs_in(error.text(), path@),
            RuntimeError::Transport { connection, reason } => text::occurs_in(
                error.text(),
                reason@,
            ),
            _ => true,
        },
{
    let none = Seq::<char>::empty();
    match error {
        RuntimeError::UnresolvedAgent { agent_id, cause } => {
            text::lemma_part_occurs(
                "failed to resolve agent \""@,
                agent_id@,
                "\" from registry"@,
            );
        },
        RuntimeError::NoRunnableDistribution { agent_id } => {
            text::lemma_part_occurs(
                "agent \""@,
                agent_id@,
                "\" does not have a runnable distribution"@,
            );
        },
        RuntimeError::CreateDirectory { path, cause } => {
            text::lemma_ending_occurs("failed to create "@, path@);
        },
        RuntimeError::MissingExecutable { archive, cmd, path } => {
            let a = "downloaded "@ + archive@ + ", but could not find \""@;
            let b = a + cmd@ + "\" at "@;
            text::lemma_part_occurs("downloaded "@, archive@, ", but could not find \""@);
            text::lemma_occurs_further(none, a, cmd@, archive@);
            text::lemma_occurs_further(none, a + cmd@, "\" at "@, archive@);
            text::lemma_occurs_further(none, b, path@, archive@);
            text::lemma_part_occurs(a, cmd@, "\" at "@);
            text::lemma_occurs_further(none, b, path@, cmd@);
            text::lemma_ending_occurs(b, path@);
        },
        RuntimeError::MarkExecutable { path, cause } => {
            text::lemma_part_occurs("failed to mark "@, path@, " executable"@);
        },
        RuntimeError::Spawn { program, subject, cause } => {
            let front = "failed to spawn "@ + program@ + " for "@;
            text::lemma_part_occurs("failed to spawn "@, program@, " for "@);
            text::lemma_occurs_further(none, front, subject@, program@);
            text::lemma_ending_occurs(front, subject@);
        },
        RuntimeError::Run { program, subject, cause } => {
            let front = "failed to run "@ + program@ + " for "@;
            text::lemma_part_occurs("failed to run "@, program@, " for "@);
            text::lemma_occurs_further(none, front, subject@, program@);
            text::lemma_ending_occurs(front, subject@);
        },
        RuntimeError::Bind { protocol, host, port, cause } => {
            let front = "failed to bind "@ + protocol.label() + " listener on "@;
            let target = bind_target(host@, port);
            bind_targets_show_host_and_port(host@, port);
            text::lemma_occurs_further(front, target, none, host@);
            text::lemma_occurs_further(front, target, none, text::decimal(port as nat));
        },
        RuntimeError::Accept { protocol, address, cause } => {
            text::lemma_ending_occurs(
                "failed to accept "@ + protocol.label() + " connection on "@,
                address@,
            );
        },
        RuntimeError::SocketPathExists { path } => {
            text::lemma_part_occurs(
                "refusing to bind Unix socket at "@,
                path@,
                ": path already exists"@,
            );
        },
        RuntimeError::BindSocket { path, cause } => {
            text::lemma_ending_occurs("failed to bind Unix socket listener at "@, path@);
        },
        RuntimeError::AcceptSocket { path, cause } => {
            text::lemma_ending_occurs("failed to accept Unix socket connection on "@, path@);
        },
        RuntimeError::Transport { connection, reason } => {
            text::lemma_ending_occurs(connection.failure_label(), reason@);
        },
        _ => {},
    }
}

/// The failure that lies behind an error is what the failed operation said, unchanged.
pub proof fn causes_are_passed_on(error: RuntimeError)
    ensures
        match error {
            RuntimeError::UnresolvedAgent { agent_id, cause } => error.cause_text() == Some(
                cause.text(),
            ),
            RuntimeError::TempDirTask { cause } => error.cause_text() == Some(cause@),
            RuntimeError::TempDir { cause } => error.cause_text() == Some(cause@),
            RuntimeError::CreateDirectory { path, cause } => error.cause_text() == Some(cause@),
            RuntimeError::MarkExecutable { path, cause } => error.cause_text() == Some(cause@),
            RuntimeError::Spawn { program, subject, cause } => error.cause_text() == Some(cause@),
            RuntimeError::Run { program, subject, cause } => error.cause_text() == Some(cause@),
            RuntimeError::CheckChild { cause } => error.cause_text() == Some(cause@),
            RuntimeError::KillChild { cause } => error.cause_text() == Some(cause@),
            RuntimeError::WaitChild { cause } => error.cause_text() == Some(cause@),
            RuntimeError::Bind { protocol, host, port, cause } => error.cause_text() == Some(
                cause@,
            ),
            RuntimeError::Accept { protocol, address, cause } => error.cause_text() == Some(cause@),
            RuntimeError::BindSocket { path, cause } => error.cause_text() == Some(cause@),
            RuntimeError::AcceptSocket { path, cause } => error.cause_text() == Some(cause@),
            RuntimeError::Handshake { cause } => error.cause_text() == Some(cause@),
            RuntimeError::JoinTransportTask { cause } => error.cause_text() == Some(cause@),
            _ => error.cause_text() is None,
        },
{
}

} // verus!
