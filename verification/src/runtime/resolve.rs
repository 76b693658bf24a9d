//! Finding the agent to run in the registry, and preparing its command.
use vstd::prelude::*;
use vstd::string::*;

use crate::registry;
use crate::registry::{Registry, RegistryAgent, RegistryError};
use crate::runtime::error::RuntimeError;
use crate::runtime::prepare;
use crate::runtime::prepare::{prepare_agent_command, Preparation};
use crate::text;

verus! {

/// Whether `agent` is what comes of resolving `agent_id` in a registry.
pub open spec fn is_resolved(
    registry: Registry,
    agent_id: Seq<char>,
    agent: Result<&RegistryAgent, RuntimeError>,
) -> bool {
    match agent {
        Ok(found) => exists|i: int|
            #[trigger] registry::first_with_id(registry.agents@, agent_id, i) && registry.agents@[i]
                == *found,
        Err(error) => {
            &&& registry::none_with_id(registry.agents@, agent_id)
            &&& error matches RuntimeError::UnresolvedAgent {
                agent_id: wanted,
                cause: RegistryError::AgentNotFound { id },
            } && wanted@ == agent_id && id@ == agent_id
        },
    }
}

/// Looks up the agent to run or to serve.
pub fn resolve_agent<'a>(registry: &'a Registry, agent_id: &str) -> (agent: Result<
    &'a RegistryAgent,
    RuntimeError,
>)
    ensures
        is_resolved(*registry, agent_id@, agent),
{
    match registry.get_agent(agent_id) {
        Ok(agent) => Ok(agent),
        Err(cause) => Err(RuntimeError::UnresolvedAgent { agent_id: agent_id.to_owned(), cause }),
    }
}

/// An agent of the registry, with how far its command could be prepared.
pub struct ResolvedCommand<'a> {
    /// The agent.
    pub agent: &'a RegistryAgent,
    /// Its command.
    pub preparation: Preparation<'a>,
}

/// Whether `resolved` is what comes of resolving `agent_id` and preparing the agent's command. An
/// agent that is not in the registry is reported before anything is prepared.
pub open spec fn is_resolved_command(
    registry: Registry,
    agent_id: Seq<char>,
    user_args: Seq<Seq<char>>,
    os: Seq<char>,
    arch: Seq<char>,
    resolved: Result<ResolvedCommand, RuntimeError>,
) -> bool {
    if registry::none_with_id(registry.agents@, agent_id) {
        resolved matches Err(error) && is_resolved(registry, agent_id, Err(error))
    } else {
        exists|i: int|
            #[trigger] registry::first_with_id(registry.agents@, agent_id, i) && match resolved {
                Ok(command) => *command.agent == registry.agents@[i] && prepare::is_prepared(
                    registry.agents@[i],
                    user_args,
                    os,
                    arch,
                    Ok(command.preparation),
                ),
                Err(error) => prepare::is_prepared(
                    registry.agents@[i],
                    user_args,
                    os,
                    arch,
                    Err(error),
                ),
            }
    }
}

/// Looks up the agent to run or to serve, and prepares its command.
pub fn resolve_command<'a>(
    registry: &'a Registry,
    agent_id: &str,
    user_args: &'a [String],
    os: &str,
    arch: &str,
) -> (resolved: Result<ResolvedCommand<'a>, RuntimeError>)
    ensures
        is_resolved_command(
            *registry,
            agent_id@,
            text::texts(user_args@),
            os@,
            arch@,
            resolved,
        ),
{
    match resolve_agent(registry, agent_id) {
        Ok(agent) => {
            proof {
                registry::lookup_is_unambiguous(registry.agents@, agent_id@, 0, 0);
            }
            match prepare_agent_command(agent, user_args, os, arch) {
                Ok(preparation) => Ok(ResolvedCommand { agent, preparation }),
                Err(error) => Err(error),
            }
        },
        Err(error) => Err(error),
    }
}

// ---------------------------------------------------------------------------
// Laws
// ---------------------------------------------------------------------------

/// The agent that is run or served is the first of the registry with exactly the requested
/// identifier, and there is none exactly if no agent has it.
pub proof fn agents_are_resolved_by_their_identifier(
    registry: Registry,
    agent_id: Seq<char>,
    user_args: Seq<Seq<char>>,
    os: Seq<char>,
    arch: Seq<char>,
    resolved: Result<ResolvedCommand, RuntimeError>,
)
    requires
        is_resolved_command(registry, agent_id, user_args, os, arch, resolved),
    ensures
        (resolved matches Err(RuntimeError::UnresolvedAgent { agent_id: wanted, cause }))
            <==> (forall|j: int|
            0 <= j < registry.agents@.len() ==> (#[trigger] registry.agents@[j]).id@ != agent_id),
        resolved matches Err(RuntimeError::UnresolvedAgent { agent_id: wanted, cause }) ==> wanted@
            == agent_id,
        resolved matches Ok(command) ==> command.agent.id@ == agent_id,
        resolved matches Ok(command) ==> exists|i: int|
            0 <= i < registry.agents@.len() && #[trigger] registry.agents@[i] == *command.agent && (
            forall|j: int| 0 <= j < i ==> (#[trigger] registry.agents@[j]).id@ != agent_id),
        resolved matches Ok(command) ==> prepare::is_prepared(
            *command.agent,
            user_args,
            os,
            arch,
            Ok(command.preparation),
        ),
{
    let agents = registry.agents@;
    registry::agents_are_looked_up_by_their_identifier(agents, agent_id, 0);
    if !registry::none_with_id(agents, agent_id) {
        let i = choose|i: int|
            #[trigger] registry::first_with_id(agents, agent_id, i) && match resolved {
                Ok(command) => *command.agent == agents[i] && prepare::is_prepared(
                    agents[i],
                    user_args,
                    os,
                    arch,
                    Ok(command.preparation),
                ),
                Err(error) => prepare::is_prepared(agents[i], user_args, os, arch, Err(error)),
            };
        registry::agents_are_looked_up_by_their_identifier(agents, agent_id, i);
        assert(agents[i].id@ == agent_id);
    }
}

/// Looking up an agent that no entry of the registry names is reported with the identifier that was
/// asked for; otherwise the first entry that names it is found.
pub proof fn lookups_find_the_first_entry(
    registry: Registry,
    agent_id: Seq<char>,
    agent: Result<&RegistryAgent, RuntimeError>,
)
    requires
        is_resolved(registry, agent_id, agent),
    ensures
        agent is Err <==> (forall|j: int|
            0 <= j < registry.agents@.len() ==> (#[trigger] registry.agents@[j]).id@ != agent_id),
        agent matches Err(error) ==> (error matches RuntimeError::UnresolvedAgent {
            agent_id: wanted,
            cause: RegistryError::AgentNotFound { id },
        } && wanted@ == agent_id && id@ == agent_id),
        agent matches Ok(found) ==> exists|i: int|
            0 <= i < registry.agents@.len() && #[trigger] registry.agents@[i] == *found
                && found.id@ == agent_id && (forall|j: int|
                0 <= j < i ==> (#[trigger] registry.agents@[j]).id@ != agent_id),
{
    match agent {
        Ok(found) => {
            let i = choose|i: int|
                #[trigger] registry::first_with_id(registry.agents@, agent_id, i)
                    && registry.agents@[i] == *found;
            registry::agents_are_looked_up_by_their_identifier(registry.agents@, agent_id, i);
            assert(registry.agents@[i].id@ == agent_id);
        },
        Err(error) => {},
    }
}

} // verus!
