//! TCP transport: a raw byte stream to one client, without further framing.
use vstd::prelude::*;

use crate::runtime::error::{Protocol, RuntimeError};
use crate::runtime::transports::listen;
use crate::runtime::transports::listen::{
    accept_connection, open_listener, Announced, Announcement,
};

verus! {

/// Takes what came of binding a TCP listener for `subject`, and how to announce it.
pub fn serve_tcp<L>(
    subject: &str,
    host: &str,
    port: u16,
    outcome: Result<(L, Option<String>), String>,
) -> (opened: Result<Announced<L>, RuntimeError>)
    ensures
        listen::is_opened(
            Announcement::RawTcp,
            Protocol::Tcp,
            subject@,
            host@,
            port,
            outcome,
            opened,
        ),
{
    open_listener(Announcement::RawTcp, Protocol::Tcp, subject, host, port, outcome)
}

/// Takes what came of accepting the one TCP client.
pub fn accept_tcp_client<S>(display_address: &str, outcome: Result<S, String>) -> (accepted: Result<
    S,
    RuntimeError,
>)
    ensures
        match (outcome, accepted) {
            (Ok(socket), Ok(connection)) => connection == socket,
            (Err(e), Err(RuntimeError::Accept { protocol, address, cause })) => protocol
                == Protocol::Tcp && address@ == display_address@ && cause == e,
            _ => false,
        },
{
    accept_connection(Protocol::Tcp, display_address, outcome)
}

} // verus!
