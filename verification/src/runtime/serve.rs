//! Serving an agent over a network transport.
use vstd::prelude::*;

use crate::path::OsText;
use crate::registry::Registry;
use crate::runtime::error::RuntimeError;
use crate::runtime::resolve;
use crate::runtime::resolve::{resolve_command, ResolvedCommand};
use crate::text;

verus! {

/// The ways in which an agent can be served, each with the address it needs.
#[derive(Debug, Clone, PartialEq, Eq)]
pub enum ServeMode {
    /// HTTP/2 stream transport.
    Http {
        /// Listener host or IP address to bind.
        host: String,
        /// Listener port. `0` lets the OS choose an ephemeral port.
        port: u16,
    },
    /// Raw TCP byte-stream transport.
    Tcp {
        /// Listener host or IP address to bind.
        host: String,
        /// Listener port. `0` lets the OS choose an ephemeral port.
        port: u16,
    },
    /// WebSocket transport: one message per frame.
    Ws {
        /// Listener host or IP address to bind.
        host: String,
        /// Listener port. `0` lets the OS choose an ephemeral port.
        port: u16,
    },
    /// Raw byte-stream transport over a Unix domain socket.
    Uds {
        /// Path at which the socket listener will bind.
        path: OsText,
    },
}

/// Runtime options shared by all serve entry points.
#[derive(Debug, Clone, PartialEq, Eq)]
pub struct ServeOptions {
    /// The transport and where it binds.
    pub mode: ServeMode,
}

/// Decides which agent is served and by which transport: resolves the agent, prepares its command,
/// and picks the transport that the options name. The agent is served under the identifier that
/// the registry gives it.
pub fn serve_agent<'a>(
    registry: &'a Registry,
    agent_id: &str,
    options: ServeOptions,
    user_args: &'a [String],
    os: &str,
    arch: &str,
) -> (service: Result<(ResolvedCommand<'a>, ServeMode), RuntimeError>)
    ensures
        match service {
            Ok((command, mode)) => {
                &&& resolve::is_resolved_command(
                    *registry,
                    agent_id@,
                    text::texts(user_args@),
                    os@,
                    arch@,
                    Ok(command),
                )
                &&& mode == options.mode
            },
            Err(error) => resolve::is_resolved_command(
                *registry,
                agent_id@,
                text::texts(user_args@),
                os@,
                arch@,
                Err(error),
            ),
        },
{
    match resolve_command(registry, agent_id, user_args, os, arch) {
        Ok(command) => Ok((command, options.mode)),
        Err(error) => Err(error),
    }
}

} // verus!
