//! Binding a listener and accepting its one connection.
use vstd::prelude::*;
use vstd::string::*;

use crate::runtime::error;
use crate::runtime::error::{bind_target_display, Protocol, RuntimeError};
use crate::text;

verus! {

/// A listener with the address under which it is announced.
pub struct BoundListener<L> {
    /// The listener.
    pub listener: L,
    /// The address shown to people.
    pub display_address: String,
}

/// Takes what came of binding a listener on `host` and `port`: the listener with its own address,
/// if it knows it, or the failure. A listener that does not know its address is announced by the
/// requested one.
pub fn bind_listener<L>(
    protocol: Protocol,
    host: &str,
    port: u16,
    outcome: Result<(L, Option<String>), String>,
) -> (bound: Result<BoundListener<L>, RuntimeError>)
    ensures
        match (outcome, bound) {
            (Ok((listener, Some(address))), Ok(b)) => b.listener == listener && b.display_address
                == address,
            (Ok((listener, None)), Ok(b)) => b.listener == listener && b.display_address@
                == error::bind_target(host@, port),
            (Err(e), Err(RuntimeError::Bind { protocol: p, host: h, port: n, cause })) => p
                == protocol && h@ == host@ && n == port && cause == e,
            _ => false,
        },
{
    match outcome {
        Ok((listener, Some(display_address))) => Ok(BoundListener { listener, display_address }),
        Ok((listener, None)) => Ok(
            BoundListener { listener, display_address: bind_target_display(host, port) },
        ),
        Err(cause) => Err(RuntimeError::Bind { protocol, host: host.to_owned(), port, cause }),
    }
}

/// Takes what came of accepting a connection on the listener announced as `display_address`.
pub fn accept_connection<S>(
    protocol: Protocol,
    display_address: &str,
    outcome: Result<S, String>,
) -> (accepted: Result<S, RuntimeError>)
    ensures
        match (outcome, accepted) {
            (Ok(socket), Ok(connection)) => connection == socket,
            (Err(e), Err(RuntimeError::Accept { protocol: p, address, cause })) => p == protocol
                && address@ == display_address@ && cause == e,
            _ => false,
        },
{
    match outcome {
        Ok(socket) => Ok(socket),
        Err(cause) => Err(
            RuntimeError::Accept { protocol, address: display_address.to_owned(), cause },
        ),
    }
}

/// A way in which an agent is announced.
#[derive(Debug, Clone, Copy, PartialEq, Eq, Structural)]
pub enum Announcement {
    /// A raw stream over TCP.
    RawTcp,
    /// A raw stream over a Unix domain socket.
    RawUnix,
    /// One HTTP/2 stream.
    Http2Stream,
    /// One message per WebSocket frame.
    WebSocketFrames,
    /// JSON-RPC over WebSocket.
    WebSocketRpc,
}

impl Announcement {
    /// What stands between the agent's name and the address.
    pub open spec fn scheme_text(self) -> Seq<char> {
        match self {
            Announcement::RawTcp => " over tcp://"@,
            Announcement::RawUnix => " over unix://"@,
            Announcement::Http2Stream => " over http://"@,
            Announcement::WebSocketFrames => " over ws://"@,
            Announcement::WebSocketRpc => " over ws://"@,
        }
    }

    /// What follows the address.
    pub open spec fn mode_text(self) -> Seq<char> {
        match self {
            Announcement::RawTcp => " (raw stdio stream transport)"@,
            Announcement::RawUnix => " (raw stdio stream transport)"@,
            Announcement::Http2Stream => " (HTTP/2 stream transport)"@,
            Announcement::WebSocketFrames => " (ACP message per WebSocket frame)"@,
            Announcement::WebSocketRpc => " (jsonrpsee WebSocket transport)"@,
        }
    }

    /// The line that announces `subject` at `address`.
    pub open spec fn announced(self, subject: Seq<char>, address: Seq<char>) -> Seq<char> {
        "Running "@ + subject + self.scheme_text() + address + self.mode_text()
    }

    /// The line that announces `subject` at `address`.
    pub fn line(self, subject: &str, address: &str) -> (out: String)
        ensures
            out@ == self.announced(subject@, address@),
    {
        let mut out = "Running ".to_owned();
        out.append(subject);
        out.append(
            match self {
                Announcement::RawTcp => " over tcp://",
                Announcement::RawUnix => " over unix://",
                Announcement::Http2Stream => " over http://",
                Announcement::WebSocketFrames => " over ws://",
                Announcement::WebSocketRpc => " over ws://",
            },
        );
        out.append(address);
        out.append(
            match self {
                Announcement::RawTcp => " (raw stdio stream transport)",
                Announcement::RawUnix => " (raw stdio stream transport)",
                Announcement::Http2Stream => " (HTTP/2 stream transport)",
                Announcement::WebSocketFrames => " (ACP message per WebSocket frame)",
                Announcement::WebSocketRpc => " (jsonrpsee WebSocket transport)",
            },
        );
        out
    }
}

/// A listener that is ready to be announced.
pub struct Announced<L> {
    /// The listener.
    pub bound: BoundListener<L>,
    /// The line that announces it.
    pub line: String,
}

/// Whether `opened` is what comes of binding a listener for `subject` and announcing it.
pub open spec fn is_opened<L>(
    announcement: Announcement,
    protocol: Protocol,
    subject: Seq<char>,
    host: Seq<char>,
    port: u16,
    outcome: Result<(L, Option<String>), String>,
    opened: Result<Announced<L>, RuntimeError>,
) -> bool {
    match (outcome, opened) {
        (Ok((listener, own_address)), Ok(announced)) => {
            &&& announced.bound.listener == listener
            &&& announced.bound.display_address@ == match own_address {
                Some(address) => address@,
                None => error::bind_target(host, port),
            }
            &&& announced.line@ == announcement.announced(
                subject,
                announced.bound.display_address@,
            )
        },
        (Err(e), Err(RuntimeError::Bind { protocol: p, host: h, port: n, cause })) => p == protocol
            && h@ == host && n == port && cause == e,
        _ => false,
    }
}

/// Takes what came of binding a listener for `subject`, and how to announce it.
pub fn open_listener<L>(
    announcement: Announcement,
    protocol: Protocol,
    subject: &str,
    host: &str,
    port: u16,
    outcome: Result<(L, Option<String>), String>,
) -> (opened: Result<Announced<L>, RuntimeError>)
    ensures
        is_opened(announcement, protocol, subject@, host@, port, outcome, opened),
{
    match bind_listener(protocol, host, port, outcome) {
        Ok(bound) => {
            let line = announcement.line(subject, bound.display_address.as_str());
            Ok(Announced { bound, line })
        },
        Err(error) => Err(error),
    }
}

// ---------------------------------------------------------------------------
// Laws
// ---------------------------------------------------------------------------

/// A listener is announced by its own address, or by the requested one if it does not know its own.
/// The line that announces it shows the agent and that address in full.
pub proof fn announcements_show_agent_and_address<L>(
    announcement: Announcement,
    protocol: Protocol,
    subject: Seq<char>,
    host: Seq<char>,
    port: u16,
    outcome: Result<(L, Option<String>), String>,
    opened: Result<Announced<L>, RuntimeError>,
)
    requires
        is_opened(announcement, protocol, subject, host, port, outcome, opened),
    ensures
        outcome is Ok <==> opened is Ok,
        outcome matches Ok((listener, own)) ==> (opened matches Ok(announced) && {
            &&& announced.bound.listener == listener
            &&& own matches Some(address) ==> announced.bound.display_address@ == address@
            &&& own is None ==> text::occurs_in(announced.bound.display_address@, host)
            &&& own is None ==> text::occurs_in(
                announced.bound.display_address@,
                text::decimal(port as nat),
            )
            &&& text::occurs_in(announced.line@, subject)
            &&& text::occurs_in(announced.line@, announced.bound.display_address@)
        }),
        outcome matches Err(e) ==> (opened matches Err(
            RuntimeError::Bind { protocol: p, host: h, port: n, cause },
        ) && p == protocol && h@ == host && n == port && cause == e),
{
    match opened {
        Ok(announced) => {
            let address = announced.bound.display_address@;
            error::bind_targets_show_host_and_port(host, port);
            let front = "Running "@ + subject + announcement.scheme_text();
            text::lemma_part_occurs("Running "@, subject, announcement.scheme_text());
            text::lemma_occurs_further(Seq::empty(), front, address, subject);
            text::lemma_occurs_further(
                Seq::empty(),
                front + address,
                announcement.mode_text(),
                subject,
            );
            text::lemma_part_occurs(front, address, announcement.mode_text());
        },
        Err(error) => {},
    }
}

/// Each transport is announced by its own scheme, between the agent and the address.
pub proof fn announcements_name_their_transport(subject: Seq<char>, address: Seq<char>)
    ensures
        Announcement::RawTcp.announced(subject, address) == "Running "@ + subject + " over tcp://"@
            + address + " (raw stdio stream transport)"@,
        Announcement::RawUnix.announced(subject, address) == "Running "@ + subject
            + " over unix://"@ + address + " (raw stdio stream transport)"@,
        Announcement::Http2Stream.announced(subject, address) == "Running "@ + subject
            + " over http://"@ + address + " (HTTP/2 stream transport)"@,
        Announcement::WebSocketFrames.announced(subject, address) == "Running "@ + subject
            + " over ws://"@ + address + " (ACP message per WebSocket frame)"@,
        Announcement::WebSocketRpc.announced(subject, address) == "Running "@ + subject
            + " over ws://"@ + address + " (jsonrpsee WebSocket transport)"@,
{
}

} // verus!
