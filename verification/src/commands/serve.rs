//! The `serve` command: an agent behind a network transport.
use vstd::prelude::*;

use crate::registry::Registry;
use crate::runtime::error::RuntimeError;
use crate::runtime::resolve;
use crate::runtime::resolve::ResolvedCommand;
use crate::runtime::serve;
use crate::runtime::serve::{ServeMode, ServeOptions};
use crate::text;

verus! {

/// Decides which agent is served, and how: over the transport that `mode` names.
pub fn serve_agent<'a>(
    registry: &'a Registry,
    agent_id: &str,
    mode: ServeMode,
    args: &'a [String],
    os: &str,
    arch: &str,
) -> (service: Result<(ResolvedCommand<'a>, ServeMode), RuntimeError>)
    ensures
        match service {
            Ok((command, picked)) => {
                &&& resolve::is_resolved_command(
                    *registry,
                    agent_id@,
                    text::texts(args@),
                    os@,
                    arch@,
                    Ok(command),
                )
                &&& picked == mode
            },
            Err(error) => resolve::is_resolved_command(
                *registry,
                agent_id@,
                text::texts(args@),
                os@,
                arch@,
                Err(error),
            ),
        },
{
    serve::serve_agent(registry, agent_id, ServeOptions { mode }, args, os, arch)
}

} // verus!
