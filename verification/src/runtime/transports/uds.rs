//! Unix domain socket transport: a raw byte stream to one client, without further framing.
//!
//! A path that exists is never bound and never removed. The path of a socket that was created is
//! removed on every way out.
use vstd::prelude::*;
use vstd::string::*;
use vstd::utf8::*;

use crate::bytes::copy_bytes;
use crate::path;
use crate::path::{shown, OsText};
use crate::runtime::error::RuntimeError;
use crate::runtime::transports::listen::Announcement;

verus! {

/// Owns the path of a Unix domain socket for as long as the socket is served.
pub struct SocketPathGuard {
    path: OsText,
    created: bool,
}

impl SocketPathGuard {
    /// The path.
    pub closed spec fn path_text(self) -> Seq<u8> {
        self.path@
    }

    /// Whether this process created the socket at the path.
    pub closed spec fn is_created(self) -> bool {
        self.created
    }

    /// A guard for a socket that has not been created.
    pub fn new(path: OsText) -> (guard: SocketPathGuard)
        ensures
            guard.path_text() == path@,
            !guard.is_created(),
    {
        SocketPathGuard { path, created: false }
    }

    /// Records that this process created the socket.
    pub fn mark_created(&mut self)
        ensures
            final(self).path_text() == old(self).path_text(),
            final(self).is_created(),
    {
        self.created = true;
    }

    /// The path to remove when the service ends, if there is one.
    pub fn removal(&self) -> (path: Option<OsText>)
        ensures
            path::os_option(path) == self.removed(),
    {
        if self.created {
            Some(copy_bytes(self.path.as_slice()))
        } else {
            None
        }
    }

    /// What the guard is after an attempt to bind the socket: only a socket that was bound is
    /// owned.
    pub open spec fn after_bind(self, outcome: Result<(), String>, after: SocketPathGuard) -> bool {
        &&& after.path_text() == self.path_text()
        &&& after.is_created() == (self.is_created() || outcome is Ok)
    }

    /// The path that is removed when the service ends, if there is one.
    pub open spec fn removed(self) -> Option<Seq<u8>> {
        if self.is_created() {
            Some(self.path_text())
        } else {
            None
        }
    }

    /// Takes what came of binding the socket. Only a socket that was bound is owned.
    pub fn bound(&mut self, outcome: Result<(), String>) -> (bound: Result<(), RuntimeError>)
        ensures
            old(self).after_bind(outcome, *final(self)),
            match outcome {
                Ok(()) => bound is Ok,
                Err(e) => bound matches Err(RuntimeError::BindSocket { path, cause })
                    && path::is_shown(old(self).path_text(), path@) && cause == e,
            },
    {
        match outcome {
            Ok(()) => {
                self.mark_created();
                Ok(())
            },
            Err(cause) => Err(RuntimeError::BindSocket { path: shown(self.path.as_slice()), cause }),
        }
    }

    /// The line that announces `subject` on the socket.
    pub fn announcement(&self, subject: &str) -> (line: String)
        ensures
            line@ == Announcement::RawUnix.announced(subject@, path::lossy_text(self.path_text())),
            valid_utf8(self.path_text()) ==> line@ == Announcement::RawUnix.announced(
                subject@,
                decode_utf8(self.path_text()),
            ),
    {
        let address = shown(self.path.as_slice());
        Announcement::RawUnix.line(subject, address.as_str())
    }

    /// Takes what came of accepting the one client.
    pub fn accepted<S>(&self, outcome: Result<S, String>) -> (accepted: Result<S, RuntimeError>)
        ensures
            match (outcome, accepted) {
                (Ok(socket), Ok(connection)) => connection == socket,
                (Err(e), Err(RuntimeError::AcceptSocket { path, cause })) => path::is_shown(
                    self.path_text(),
                    path@,
                ) && cause == e,
                _ => false,
            },
    {
        match outcome {
            Ok(socket) => Ok(socket),
            Err(cause) => Err(RuntimeError::AcceptSocket { path: shown(self.path.as_slice()), cause }),
        }
    }
}

/// Begins to serve on the Unix domain socket at `path`. A path that exists is refused; any other
/// gets a guard that owns nothing yet.
pub fn serve_uds(path: &[u8], exists: bool) -> (guard: Result<SocketPathGuard, RuntimeError>)
    ensures
        match guard {
            Ok(g) => !exists && g.path_text() == path@ && !g.is_created(),
            Err(error) => exists && (error matches RuntimeError::SocketPathExists { path: p }
                && path::is_shown(path@, p@)),
        },
{
    if exists {
        Err(RuntimeError::SocketPathExists { path: shown(path) })
    } else {
        Ok(SocketPathGuard::new(copy_bytes(path)))
    }
}

// ---------------------------------------------------------------------------
// Laws
// ---------------------------------------------------------------------------

/// A socket's path is removed exactly if this process created the socket: the path of a socket
/// that could not be bound stays, and that of a socket that was bound goes.
pub proof fn path_is_removed_exactly_if_created(
    path: Seq<u8>,
    fresh: SocketPathGuard,
    outcome: Result<(), String>,
    after: SocketPathGuard,
)
    requires
        fresh.path_text() == path,
        !fresh.is_created(),
        fresh.after_bind(outcome, after),
    ensures
        fresh.removed() is None,
        outcome is Ok ==> after.removed() == Some(path),
        outcome is Err ==> after.removed() is None,
{
}

} // verus!
