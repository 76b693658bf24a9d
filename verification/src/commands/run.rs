//! The `run` command: an agent on the terminal, over HTTP/2 or over WebSocket.
use vstd::prelude::*;
use vstd::string::*;

use crate::path;
use crate::path::{OsText, PathStyle};
use crate::registry;
use crate::registry::{Platform, Registry, RegistryAgent, RegistryError};
use crate::runtime::binary::{BinaryJob, PreparationFailure};
use crate::runtime::cache::{CacheStep, CachedBinary, StoreFailure};
use crate::runtime::distribution;
use crate::runtime::distribution::{choose_source, Source, UnknownPlatform};
use crate::runtime::error::{Protocol, RuntimeError};
use crate::runtime::prepare;
use crate::runtime::prepare::{package_command_spec, CommandSpec};
use crate::runtime::resolve;
use crate::runtime::resolve::resolve_agent;
use crate::runtime::transports::listen;
use crate::runtime::transports::listen::{
    accept_connection, open_listener, Announced, Announcement,
};
use crate::text;

verus! {

/// How a running agent is reached.
#[derive(Debug, Clone, Copy, PartialEq, Eq, Structural)]
pub enum RunTransport {
    /// On the terminal.
    Stdio,
    /// Over one HTTP/2 stream.
    Http,
    /// Over JSON-RPC on WebSocket.
    Ws,
}

/// The options of the `run` command.
#[derive(Debug, Clone, PartialEq, Eq)]
pub struct RunOptions {
    /// How the agent is reached.
    pub transport: RunTransport,
    /// The host to bind.
    pub host: String,
    /// The port to bind. `0` lets the OS choose an ephemeral port.
    pub port: u16,
}

/// A command that is ready to be launched.
#[derive(Debug, Clone, PartialEq, Eq)]
pub struct PreparedCommand {
    /// What to launch.
    pub spec: CommandSpec,
    /// The temporary directory that has to exist for as long as the command runs.
    pub temp_dir: Option<OsText>,
}

/// How far a command can be prepared without touching the file system or the network.
pub enum RunPreparation<'a> {
    /// The command is ready.
    Ready(PreparedCommand),
    /// The cache has to be consulted for the binary.
    Binary(CacheStep<'a>),
}

/// Whether `prepared` is how far the command of `agent` can be prepared on the operating system
/// `os` and the architecture `arch`.
pub open spec fn is_run_prepared(
    agent: RegistryAgent,
    user_args: Seq<Seq<char>>,
    os: Seq<char>,
    arch: Seq<char>,
    prepared: Result<RunPreparation, RuntimeError>,
) -> bool {
    match distribution::preference(
        agent.distribution,
        registry::platform_of(os, arch),
        UnknownPlatform::Refuse,
    ) {
        distribution::Preference::Unsupported => prepared matches Err(
            RuntimeError::Registry(RegistryError::UnsupportedPlatform { os: o, arch: a }),
        ) && o@ == os && a@ == arch,
        distribution::Preference::Binary(target) => prepared matches Ok(
            RunPreparation::Binary(step),
        ) && step.job.agent_id@ == agent.id@ && *step.job.target == target && text::texts(
            step.job.user_args@,
        ) == user_args && step.job.style == path::style_of(os),
        distribution::Preference::Npx(package) => prepared matches Ok(
            RunPreparation::Ready(command),
        ) && command.temp_dir is None && command.spec@ == prepare::package_command(
            "npx"@,
            package.package@,
            package.args,
            package.env,
            user_args,
        ),
        distribution::Preference::Uvx(package) => prepared matches Ok(
            RunPreparation::Ready(command),
        ) && command.temp_dir is None && command.spec@ == prepare::package_command(
            "uvx"@,
            package.package@,
            package.args,
            package.env,
            user_args,
        ),
        distribution::Preference::Nothing => prepared matches Err(
            RuntimeError::NoRunnableDistribution { agent_id },
        ) && agent_id@ == agent.id@,
    }
}

/// Prepares the command for an agent. A binary for the platform comes first, a package for `npx`
/// second and one for `uvx` last. A binary is looked for in the cache, see
/// [`crate::runtime::cache`], and downloaded only if it is missing or stale there.
pub fn prepare_run_command<'a>(
    agent: &'a RegistryAgent,
    user_args: &'a [String],
    os: &str,
    arch: &str,
) -> (prepared: Result<RunPreparation<'a>, RuntimeError>)
    ensures
        is_run_prepared(*agent, text::texts(user_args@), os@, arch@, prepared),
{
    match choose_source(&agent.distribution, os, arch, UnknownPlatform::Refuse) {
        Err(error) => Err(RuntimeError::Registry(error)),
        Ok(Source::Binary { platform: _, target }) => Ok(
            RunPreparation::Binary(
                CacheStep {
                    job: BinaryJob {
                        agent_id: agent.id.as_str(),
                        target,
                        user_args,
                        style: PathStyle::of(os),
                    },
                },
            ),
        ),
        Ok(Source::Npx(npx)) => Ok(
            RunPreparation::Ready(
                PreparedCommand {
                    spec: package_command_spec(
                        "npx",
                        npx.package.as_str(),
                        &npx.args,
                        &npx.env,
                        user_args,
                    ),
                    temp_dir: None,
                },
            ),
        ),
        Ok(Source::Uvx(uvx)) => Ok(
            RunPreparation::Ready(
                PreparedCommand {
                    spec: package_command_spec(
                        "uvx",
                        uvx.package.as_str(),
                        &uvx.args,
                        &uvx.env,
                        user_args,
                    ),
                    temp_dir: None,
                },
            ),
        ),
        Ok(Source::Nothing) => Err(
            RuntimeError::NoRunnableDistribution { agent_id: agent.id.clone() },
        ),
    }
}

/// The error that a failed step of a preparation is reported as.
pub open spec fn preparation_error(failure: PreparationFailure<String>) -> RuntimeError {
    match failure {
        PreparationFailure::TempDirTask(cause) => RuntimeError::TempDirTask { cause },
        PreparationFailure::TempDir(cause) => RuntimeError::TempDir { cause },
        PreparationFailure::Download(cause) => RuntimeError::Download { cause },
        PreparationFailure::CreateDirectory { path, cause } => RuntimeError::CreateDirectory {
            path,
            cause,
        },
        PreparationFailure::Extract(cause) => RuntimeError::Extract { cause },
        PreparationFailure::MissingExecutable {
            archive,
            cmd,
            path,
        } => RuntimeError::MissingExecutable { archive, cmd, path },
        PreparationFailure::MarkExecutable { path, cause } => RuntimeError::MarkExecutable {
            path,
            cause,
        },
    }
}

/// The error that a failed step of a preparation is reported as.
pub fn preparation_failed(failure: PreparationFailure<String>) -> (error: RuntimeError)
    ensures
        error == preparation_error(failure),
{
    match failure {
        PreparationFailure::TempDirTask(cause) => RuntimeError::TempDirTask { cause },
        PreparationFailure::TempDir(cause) => RuntimeError::TempDir { cause },
        PreparationFailure::Download(cause) => RuntimeError::Download { cause },
        PreparationFailure::CreateDirectory { path, cause } => RuntimeError::CreateDirectory {
            path,
            cause,
        },
        PreparationFailure::Extract(cause) => RuntimeError::Extract { cause },
        PreparationFailure::MissingExecutable {
            archive,
            cmd,
            path,
        } => RuntimeError::MissingExecutable { archive, cmd, path },
        PreparationFailure::MarkExecutable { path, cause } => RuntimeError::MarkExecutable {
            path,
            cause,
        },
    }
}

/// Takes what came of looking for a binary in the cache or of storing it there, or why it could not
/// be made ready at all. A binary that could not be stored runs from its temporary directory.
pub fn binary_prepared(
    outcome: Result<Result<CachedBinary, StoreFailure<'_>>, PreparationFailure<String>>,
) -> (prepared: Result<PreparedCommand, RuntimeError>)
    ensures
        match (outcome, prepared) {
            (Ok(Ok(cached)), Ok(command)) => command.spec@ == cached.command() && command.temp_dir
                is None,
            (Ok(Err(unstored)), Ok(command)) => command.spec == unstored.ready.spec
                && command.temp_dir == Some(unstored.ready.temp_dir),
            (Err(failure), Err(error)) => error == preparation_error(failure),
            _ => false,
        },
{
    match outcome {
        Ok(Ok(cached)) => Ok(PreparedCommand { spec: cached.into_spec(), temp_dir: None }),
        Ok(Err(unstored)) => Ok(
            PreparedCommand {
                spec: unstored.ready.spec,
                temp_dir: Some(unstored.ready.temp_dir),
            },
        ),
        Err(failure) => Err(preparation_failed(failure)),
    }
}

/// Decides what the `run` command runs: resolves the agent and prepares its command.
pub fn run_agent<'a>(
    registry: &'a Registry,
    agent_id: &str,
    user_args: &'a [String],
    os: &str,
    arch: &str,
) -> (running: Result<(&'a RegistryAgent, RunPreparation<'a>), RuntimeError>)
    ensures
        if registry::none_with_id(registry.agents@, agent_id@) {
            running matches Err(error) && resolve::is_resolved(*registry, agent_id@, Err(error))
        } else {
            exists|i: int|
                #[trigger] registry::first_with_id(registry.agents@, agent_id@, i) && match running {
                    Ok((agent, preparation)) => *agent == registry.agents@[i] && is_run_prepared(
                        registry.agents@[i],
                        text::texts(user_args@),
                        os@,
                        arch@,
                        Ok(preparation),
                    ),
                    Err(error) => is_run_prepared(
                        registry.agents@[i],
                        text::texts(user_args@),
                        os@,
                        arch@,
                        Err(error),
                    ),
                }
        },
{
    match resolve_agent(registry, agent_id) {
        Ok(agent) => {
            proof {
                registry::lookup_is_unambiguous(registry.agents@, agent_id@, 0, 0);
            }
            match prepare_run_command(agent, user_args, os, arch) {
                Ok(preparation) => Ok((agent, preparation)),
                Err(error) => Err(error),
            }
        },
        Err(error) => Err(error),
    }
}

/// How a prepared command is run.
pub enum RunMode {
    /// On the terminal.
    Terminal,
    /// Behind a listener that takes one HTTP/2 connection.
    Http {
        /// The host to bind.
        host: String,
        /// The port to bind.
        port: u16,
    },
    /// Behind a listener that takes one JSON-RPC connection on WebSocket.
    Ws {
        /// The host to bind.
        host: String,
        /// The port to bind.
        port: u16,
    },
}

/// Decides how a prepared command is run. Its temporary directory has to exist until it ends.
pub fn run_prepared_command(options: RunOptions) -> (mode: RunMode)
    ensures
        mode == match options.transport {
            RunTransport::Stdio => RunMode::Terminal,
            RunTransport::Http => RunMode::Http { host: options.host, port: options.port },
            RunTransport::Ws => RunMode::Ws { host: options.host, port: options.port },
        },
{
    match options.transport {
        RunTransport::Stdio => RunMode::Terminal,
        RunTransport::Http => RunMode::Http { host: options.host, port: options.port },
        RunTransport::Ws => RunMode::Ws { host: options.host, port: options.port },
    }
}

/// Takes what came of binding the HTTP/2 listener for `subject`, and how to announce it.
pub fn run_command_h2<L>(
    subject: &str,
    host: &str,
    port: u16,
    outcome: Result<(L, Option<String>), String>,
) -> (opened: Result<Announced<L>, RuntimeError>)
    ensures
        listen::is_opened(
            Announcement::Http2Stream,
            Protocol::Http,
            subject@,
            host@,
            port,
            outcome,
            opened,
        ),
{
    open_listener(Announcement::Http2Stream, Protocol::Http, subject, host, port, outcome)
}

/// Takes what came of accepting the one HTTP/2 client.
pub fn accept_h2_client<S>(display_address: &str, outcome: Result<S, String>) -> (accepted: Result<
    S,
    RuntimeError,
>)
    ensures
        match (outcome, accepted) {
            (Ok(socket), Ok(connection)) => connection == socket,
            (Err(e), Err(RuntimeError::Accept { protocol, address, cause })) => protocol
                == Protocol::Http && address@ == display_address@ && cause == e,
            _ => false,
        },
{
    accept_connection(Protocol::Http, display_address, outcome)
}

/// Takes what came of binding the listener for JSON-RPC on WebSocket for `subject`, and how to
/// announce it. A failure is reported as one of an HTTP listener, which a WebSocket starts on.
pub fn run_command_ws<L>(
    subject: &str,
    host: &str,
    port: u16,
    outcome: Result<(L, Option<String>), String>,
) -> (opened: Result<Announced<L>, RuntimeError>)
    ensures
        listen::is_opened(
            Announcement::WebSocketRpc,
            Protocol::Http,
            subject@,
            host@,
            port,
            outcome,
            opened,
        ),
{
    open_listener(Announcement::WebSocketRpc, Protocol::Http, subject, host, port, outcome)
}

// ---------------------------------------------------------------------------
// Laws
// ---------------------------------------------------------------------------

/// A binary that the cache holds for the platform is what `run` runs: the prepared step asks the
/// cache for the agent's own binary, and a fresh payload becomes the command, with the arguments
/// of the registry and then those of the user.
pub proof fn fresh_payload_is_what_runs(
    agent: RegistryAgent,
    user_args: Seq<Seq<char>>,
    os: Seq<char>,
    arch: Seq<char>,
    platform: Platform,
    prepared: Result<RunPreparation, RuntimeError>,
    executable_path: Seq<u8>,
    extracted_dir: Seq<u8>,
)
    requires
        registry::platform_of(os, arch) == Some(platform),
        agent.distribution.binary is Some,
        agent.distribution.binary->0.target(platform) is Some,
        is_run_prepared(agent, user_args, os, arch, prepared),
    ensures
        prepared matches Ok(RunPreparation::Binary(step)) && step.job.agent_id@ == agent.id@
            && prepare::binary_command(
            executable_path,
            extracted_dir,
            *step.job.target,
            text::texts(step.job.user_args@),
        ) == prepare::binary_command(
            executable_path,
            extracted_dir,
            agent.distribution.binary->0.target(platform)->0,
            user_args,
        ),
{
}

/// An agent is run from its binary for the platform if it has one, else with `npx` if it has a
/// package for it, else with `uvx` if it has a package for that. On a platform that is not known an
/// agent is refused that has binaries, whatever packages it has.
pub proof fn agents_run_from_their_best_distribution(
    agent: RegistryAgent,
    user_args: Seq<String>,
    os: Seq<char>,
    arch: Seq<char>,
    prepared: Result<RunPreparation, RuntimeError>,
)
    requires
        is_run_prepared(agent, text::texts(user_args), os, arch, prepared),
    ensures
        ({
            let from = agent.distribution;
            let known = registry::platform_of(os, arch);
            if from.binary is Some && known is None {
                prepared matches Err(
                    RuntimeError::Registry(RegistryError::UnsupportedPlatform { os: o, arch: a }),
                ) && o@ == os && a@ == arch
            } else if from.binary is Some && from.binary->0.target(known->0) is Some {
                prepared matches Ok(RunPreparation::Binary(step)) && {
                    &&& *step.job.target == from.binary->0.target(known->0)->0
                    &&& step.job.agent_id@ == agent.id@
                    &&& step.job.style == (if os == "windows"@ {
                        PathStyle::Windows
                    } else {
                        PathStyle::Unix
                    })
                    &&& step.job.user_args@.len() == user_args.len()
                    &&& forall|i: int|
                        0 <= i < user_args.len() ==> (#[trigger] step.job.user_args@[i])@
                            == user_args[i]@
                }
            } else if from.npx is Some {
                prepared matches Ok(RunPreparation::Ready(command)) && command.temp_dir is None
                    && command.spec@ == prepare::package_command(
                    "npx"@,
                    from.npx->0.package@,
                    from.npx->0.args,
                    from.npx->0.env,
                    text::texts(user_args),
                ) && command.spec.args@[0]@ == from.npx->0.package@
            } else if from.uvx is Some {
                prepared matches Ok(RunPreparation::Ready(command)) && command.temp_dir is None
                    && command.spec@ == prepare::package_command(
                    "uvx"@,
                    from.uvx->0.package@,
                    from.uvx->0.args,
                    from.uvx->0.env,
                    text::texts(user_args),
                ) && command.spec.args@[0]@ == from.uvx->0.package@
            } else {
                prepared matches Err(RuntimeError::NoRunnableDistribution { agent_id }) && agent_id@
                    == agent.id@
            }
        }),
{
    match prepared {
        Ok(RunPreparation::Ready(command)) => {
            let (runner, package) = match agent.distribution.npx {
                Some(npx) => ("npx"@, npx),
                None => ("uvx"@, agent.distribution.uvx->0),
            };
            prepare::package_commands_hold_every_argument(
                runner,
                package.package@,
                package.args,
                package.env,
                user_args,
                command.spec,
            );
        },
        Ok(RunPreparation::Binary(step)) => {
            let given = step.job.user_args@;
            text::texts_hold_every_string(user_args, Seq::empty());
            text::texts_hold_every_string(given, Seq::empty());
            assert forall|i: int| 0 <= i < user_args.len() implies (#[trigger] given[i])@
                == user_args[i]@ by {
                assert(text::texts(given)[i] == text::texts(user_args)[i]);
            }
        },
        Err(error) => {},
    }
}

/// A failed preparation is reported as what failed, with the cause that the failed operation gave,
/// unchanged.
pub proof fn failed_preparations_keep_their_cause(failure: PreparationFailure<String>)
    ensures
        match (failure, preparation_error(failure)) {
            (PreparationFailure::TempDirTask(e), RuntimeError::TempDirTask { cause }) => cause == e,
            (PreparationFailure::TempDir(e), RuntimeError::TempDir { cause }) => cause == e,
            (PreparationFailure::Download(e), RuntimeError::Download { cause }) => cause == e,
            (
                PreparationFailure::CreateDirectory { path: p, cause: e },
                RuntimeError::CreateDirectory { path, cause },
            ) => path == p && cause == e,
            (PreparationFailure::Extract(e), RuntimeError::Extract { cause }) => cause == e,
            (
                PreparationFailure::MissingExecutable { archive: a, cmd: c, path: p },
                RuntimeError::MissingExecutable { archive, cmd, path },
            ) => archive == a && cmd == c && path == p,
            (
                PreparationFailure::MarkExecutable { path: p, cause: e },
                RuntimeError::MarkExecutable { path, cause },
            ) => path == p && cause == e,
            _ => false,
        },
{
}

} // verus!
