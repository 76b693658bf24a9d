//! Running an agent on the terminal, with an error for every way to fail.
use vstd::prelude::*;
use vstd::string::*;

use crate::archive::commands::install::{InstallError, IoError, IoErrorKind};
use crate::commands::run::PreparedCommand;
use crate::path;
use crate::path::{shown, PathStyle};
use crate::registry;
use crate::registry::{Registry, RegistryAgent, RegistryError};
use crate::runtime::binary::{BinaryJob, PreparationFailure, ReadyBinary, TempDirStep};
use crate::runtime::distribution;
use crate::runtime::distribution::{choose_source, Source, UnknownPlatform};
use crate::runtime::prepare;
use crate::runtime::prepare::{package_command_spec, CommandSpec};
use crate::runtime::process::ProcessStatus;
use crate::text;
use crate::text::labelled;

verus! {

/// Why an agent could not be run.
#[derive(Debug, Clone, PartialEq, Eq)]
pub enum RunError {
    /// The registry could not be fetched.
    FetchRegistry(RegistryError),
    /// The agent is not in the registry.
    AgentNotFound(RegistryError),
    /// The platform has no name among those of binaries.
    UnsupportedPlatform(RegistryError),
    /// The agent cannot be run on this platform.
    UnavailableDistribution {
        /// The agent's identifier.
        agent_id: String,
    },
    /// The address of the archive is not an address.
    InvalidArchiveUrl(String),
    /// The command of the archive does not name a file.
    InvalidCommandPath(String),
    /// The archive does not hold the command that it should.
    BinaryNotFound {
        /// The address of the archive.
        archive: String,
        /// The command.
        cmd: String,
        /// Where the command was looked for.
        resolved_path: String,
    },
    /// The archive is of an unknown format.
    UnsupportedArchiveFormat(String),
    /// The archive holds an entry that leads outside of it.
    UnsafeArchiveEntry(String),
    /// A network request failed.
    Request(String),
    /// Input or output failed.
    Io(IoError),
    /// A ZIP archive could not be extracted.
    Zip(String),
    /// A task failed.
    Join(String),
    /// A command could not be run.
    CommandIo {
        /// The program.
        program: String,
        /// What it was run for.
        subject: String,
        /// What went wrong.
        source: IoError,
    },
}

/// Whether an error of running is what an error of installing becomes.
pub open spec fn is_from_install(error: InstallError, run: RunError) -> bool {
    match error {
        InstallError::FetchRegistry(e) => run == RunError::FetchRegistry(e),
        InstallError::AgentNotFound(e) => run == RunError::AgentNotFound(e),
        InstallError::UnsupportedPlatform(e) => run == RunError::UnsupportedPlatform(e),
        InstallError::UnavailableDistribution { agent_id } => run
            == (RunError::UnavailableDistribution { agent_id }),
        InstallError::InvalidArchiveUrl(url) => run == RunError::InvalidArchiveUrl(url),
        InstallError::InvalidCommandPath(cmd) => run == RunError::InvalidCommandPath(cmd),
        InstallError::BinaryNotFound { archive, cmd, resolved_path } => run
            == (RunError::BinaryNotFound { archive, cmd, resolved_path }),
        InstallError::UnsupportedArchiveFormat(path) => run == RunError::UnsupportedArchiveFormat(
            path,
        ),
        InstallError::UnsafeArchiveEntry(entry) => run == RunError::UnsafeArchiveEntry(entry),
        InstallError::Request(e) => run == RunError::Request(e),
        InstallError::Io(e) => run == RunError::Io(e),
        InstallError::Zip(e) => run == RunError::Zip(e),
        InstallError::Join(e) => run == RunError::Join(e),
        InstallError::MissingHomeDirectory => run matches RunError::Io(io) && io.kind
            == IoErrorKind::NotFound && io.message@
            == "Could not determine the current user's home directory"@,
        InstallError::CommandIo { program, source } => run matches RunError::CommandIo {
            program: p,
            subject,
            source: s,
        } && p == program && subject@ == "command"@ && s == source,
        InstallError::CommandFailed { program, subject, detail } => run matches RunError::CommandIo {
            program: p,
            subject: s,
            source,
        } && p == program && s@ == subject@ + ": "@ + detail@ && source.kind == IoErrorKind::Other
            && source.message@ == "command failed"@,
    }
}

/// What lies behind an error.
pub enum ErrorSource<'a> {
    /// A failed run.
    Run(&'a RunError),
    /// Failed input or output.
    Io(&'a IoError),
    /// A failure of another library, by its description.
    Other(&'a String),
}

impl<'a> ErrorSource<'a> {
    /// The text that describes the source.
    pub open spec fn text(self) -> Seq<char> {
        match self {
            ErrorSource::Run(error) => error.text(),
            ErrorSource::Io(error) => error.message@,
            ErrorSource::Other(message) => message@,
        }
    }

    /// Describes the source.
    pub fn message(&self) -> (out: String)
        ensures
            out@ == self.text(),
    {
        match self {
            ErrorSource::Run(error) => error.message(),
            ErrorSource::Io(error) => error.message.clone(),
            ErrorSource::Other(message) => (*message).clone(),
        }
    }
}

impl RunError {
    /// The error of running that an error of installing becomes.
    pub fn from_install(error: InstallError) -> (run: RunError)
        ensures
            is_from_install(error, run),
    {
        match error {
            InstallError::InvalidArchiveUrl(url) => RunError::InvalidArchiveUrl(url),
            InstallError::InvalidCommandPath(cmd) => RunError::InvalidCommandPath(cmd),
            InstallError::BinaryNotFound { archive, cmd, resolved_path } => {
                RunError::BinaryNotFound { archive, cmd, resolved_path }
            },
            InstallError::UnsupportedArchiveFormat(path) => RunError::UnsupportedArchiveFormat(
                path,
            ),
            InstallError::UnsafeArchiveEntry(entry) => RunError::UnsafeArchiveEntry(entry),
            InstallError::Request(error) => RunError::Request(error),
            InstallError::Io(error) => RunError::Io(error),
            InstallError::Zip(error) => RunError::Zip(error),
            InstallError::Join(error) => RunError::Join(error),
            InstallError::FetchRegistry(error) => RunError::FetchRegistry(error),
            InstallError::AgentNotFound(error) => RunError::AgentNotFound(error),
            InstallError::UnsupportedPlatform(error) => RunError::UnsupportedPlatform(error),
            InstallError::UnavailableDistribution { agent_id } => {
                RunError::UnavailableDistribution { agent_id }
            },
            InstallError::MissingHomeDirectory => RunError::Io(
                IoError {
                    kind: IoErrorKind::NotFound,
                    message: "Could not determine the current user's home directory".to_owned(),
                },
            ),
            InstallError::CommandIo { program, source } => RunError::CommandIo {
                program,
                subject: "command".to_owned(),
                source,
            },
            InstallError::CommandFailed { program, subject, detail } => {
                let mut full = subject;
                full.append(": ");
                full.append(detail.as_str());
                RunError::CommandIo {
                    program,
                    subject: full,
                    source: IoError {
                        kind: IoErrorKind::Other,
                        message: "command failed".to_owned(),
                    },
                }
            },
        }
    }

    /// The text that describes the error.
    pub open spec fn text(self) -> Seq<char> {
        match self {
            RunError::FetchRegistry(error) => error.text(),
            RunError::AgentNotFound(error) => error.text(),
            RunError::UnsupportedPlatform(error) => error.text(),
            RunError::UnavailableDistribution { agent_id } => "Agent \""@ + agent_id@
                + "\" does not have a runnable distribution"@,
            RunError::InvalidArchiveUrl(url) => "Invalid archive URL: "@ + url@,
            RunError::InvalidCommandPath(cmd) => "Invalid binary command path: "@ + cmd@,
            RunError::BinaryNotFound { archive, cmd, resolved_path } => "Downloaded "@ + archive@
                + ", but could not find \""@ + cmd@ + "\" at "@ + resolved_path@,
            RunError::UnsupportedArchiveFormat(path) => "Unsupported archive format for "@ + path@,
            RunError::UnsafeArchiveEntry(entry) => "Archive contains unsafe path: "@ + entry@,
            RunError::Request(error) => "Network request failed: "@ + error@,
            RunError::Io(error) => "I/O failed: "@ + error.message@,
            RunError::Zip(error) => "ZIP extraction failed: "@ + error@,
            RunError::Join(error) => "Blocking task failed: "@ + error@,
            RunError::CommandIo { program, subject, source } => "Failed to run "@ + program@
                + " for "@ + subject@ + ": "@ + source.message@,
        }
    }

    /// Describes the error.
    pub fn message(&self) -> (out: String)
        ensures
            out@ == self.text(),
    {
        match self {
            RunError::FetchRegistry(error) => error.message(),
            RunError::AgentNotFound(error) => error.message(),
            RunError::UnsupportedPlatform(error) => error.message(),
            RunError::UnavailableDistribution { agent_id } => {
                let mut out = "Agent \"".to_owned();
                out.append(agent_id.as_str());
                out.append("\" does not have a runnable distribution");
                out
            },
            RunError::InvalidArchiveUrl(url) => labelled("Invalid archive URL: ", url.as_str()),
            RunError::InvalidCommandPath(cmd) => labelled(
                "Invalid binary command path: ",
                cmd.as_str(),
            ),
            RunError::BinaryNotFound { archive, cmd, resolved_path } => {
                let mut out = "Downloaded ".to_owned();
                out.append(archive.as_str());
                out.append(", but could not find \"");
                out.append(cmd.as_str());
                out.append("\" at ");
                out.append(resolved_path.as_str());
                out
            },
            RunError::UnsupportedArchiveFormat(path) => labelled(
                "Unsupported archive format for ",
                path.as_str(),
            ),
            RunError::UnsafeArchiveEntry(entry) => labelled(
                "Archive contains unsafe path: ",
                entry.as_str(),
            ),
            RunError::Request(error) => labelled("Network request failed: ", error.as_str()),
            RunError::Io(error) => labelled("I/O failed: ", error.message.as_str()),
            RunError::Zip(error) => labelled("ZIP extraction failed: ", error.as_str()),
            RunError::Join(error) => labelled("Blocking task failed: ", error.as_str()),
            RunError::CommandIo { program, subject, source } => {
                let mut out = "Failed to run ".to_owned();
                out.append(program.as_str());
                out.append(" for ");
                out.append(subject.as_str());
                out.append(": ");
                out.append(source.message.as_str());
                out
            },
        }
    }

    /// What lies behind the error, if it has something behind it.
    pub fn source(&self) -> (source: Option<ErrorSource<'_>>)
        ensures
            match *self {
                RunError::Request(e) => source matches Some(ErrorSource::Other(s)) && *s == e,
                RunError::Io(e) => source matches Some(ErrorSource::Io(s)) && *s == e,
                RunError::Zip(e) => source matches Some(ErrorSource::Other(s)) && *s == e,
                RunError::Join(e) => source matches Some(ErrorSource::Other(s)) && *s == e,
                RunError::CommandIo { program, subject, source: e } => source matches Some(
                    ErrorSource::Io(s),
                ) && *s == e,
                _ => source is None,
            },
    {
        match self {
            RunError::Request(error) => Some(ErrorSource::Other(error)),
            RunError::Io(error) => Some(ErrorSource::Io(error)),
            RunError::Zip(error) => Some(ErrorSource::Other(error)),
            RunError::Join(error) => Some(ErrorSource::Other(error)),
            RunError::CommandIo { program, subject, source } => Some(ErrorSource::Io(source)),
            _ => None,
        }
    }
}

/// Why an operation of a preparation failed.
#[derive(Debug, Clone, PartialEq, Eq)]
pub enum PreparationCause {
    /// A task failed.
    Join(String),
    /// Input or output failed.
    Io(IoError),
    /// A step that installing has too.
    Install(InstallError),
}

/// Whether an error of running is what a cause becomes.
pub open spec fn is_from_cause(cause: PreparationCause, run: RunError) -> bool {
    match cause {
        PreparationCause::Join(e) => run == RunError::Join(e),
        PreparationCause::Io(e) => run == RunError::Io(e),
        PreparationCause::Install(e) => is_from_install(e, run),
    }
}

fn from_cause(cause: PreparationCause) -> (run: RunError)
    ensures
        is_from_cause(cause, run),
{
    match cause {
        PreparationCause::Join(error) => RunError::Join(error),
        PreparationCause::Io(error) => RunError::Io(error),
        PreparationCause::Install(error) => RunError::from_install(error),
    }
}

/// Takes what came of making an archive ready to run.
pub fn binary_prepared(outcome: Result<ReadyBinary, PreparationFailure<PreparationCause>>) -> (prepared:
    Result<PreparedCommand, RunError>)
    ensures
        match (outcome, prepared) {
            (Ok(ready), Ok(command)) => command.spec == ready.spec && command.temp_dir == Some(
                ready.temp_dir,
            ),
            (Err(failure), Err(error)) => match failure {
                PreparationFailure::TempDirTask(cause) => is_from_cause(cause, error),
                PreparationFailure::TempDir(cause) => is_from_cause(cause, error),
                PreparationFailure::Download(cause) => is_from_cause(cause, error),
                PreparationFailure::CreateDirectory { path, cause } => is_from_cause(cause, error),
                PreparationFailure::Extract(cause) => is_from_cause(cause, error),
                PreparationFailure::MissingExecutable { archive, cmd, path } => error
                    == (RunError::BinaryNotFound { archive, cmd, resolved_path: path }),
                PreparationFailure::MarkExecutable { path, cause } => is_from_cause(cause, error),
            },
            _ => false,
        },
{
    match outcome {
        Ok(ready) => Ok(PreparedCommand { spec: ready.spec, temp_dir: Some(ready.temp_dir) }),
        Err(failure) => Err(
            match failure {
                PreparationFailure::TempDirTask(cause) => from_cause(cause),
                PreparationFailure::TempDir(cause) => from_cause(cause),
                PreparationFailure::Download(cause) => from_cause(cause),
                PreparationFailure::CreateDirectory { path: _, cause } => from_cause(cause),
                PreparationFailure::Extract(cause) => from_cause(cause),
                PreparationFailure::MissingExecutable { archive, cmd, path } => {
                    RunError::BinaryNotFound { archive, cmd, resolved_path: path }
                },
                PreparationFailure::MarkExecutable { path: _, cause } => from_cause(cause),
            },
        ),
    }
}

/// How far a command can be prepared without touching the file system or the network.
pub enum RunPreparation<'a> {
    /// The command is ready.
    Ready(PreparedCommand),
    /// An archive has to be made ready to run first.
    Binary(TempDirStep<'a>),
}

/// Whether `prepared` is how far the command of `agent` can be prepared on the operating system
/// `os` and the architecture `arch`.
pub open spec fn is_run_prepared(
    agent: RegistryAgent,
    user_args: Seq<Seq<char>>,
    os: Seq<char>,
    arch: Seq<char>,
    prepared: Result<RunPreparation, RunError>,
) -> bool {
    match distribution::preference(
        agent.distribution,
        registry::platform_of(os, arch),
        UnknownPlatform::Refuse,
    ) {
        distribution::Preference::Unsupported => prepared matches Err(
            RunError::UnsupportedPlatform(RegistryError::UnsupportedPlatform { os: o, arch: a }),
        ) && o@ == os && a@ == arch,
        distribution::Preference::Binary(target) => prepared matches Ok(
            RunPreparation::Binary(step),
        ) && step.job.agent_id@ == agent.id@ && *step.job.target == target && text::texts(
            step.job.user_args@,
        ) == user_args && step.job.style == path::style_of(os),
        distribution::Preference::Npx(package) => prepared matches Ok(
            RunPreparation::Ready(command),
        ) && command.temp_dir is None && command.spec@ == prepare::package_command(
            "npx"@,
            package.package@,
            package.args,
            package.env,
            user_args,
        ),
        distribution::Preference::Uvx(package) => prepared matches Ok(
            RunPreparation::Ready(command),
        ) && command.temp_dir is None && command.spec@ == prepare::package_command(
            "uvx"@,
            package.package@,
            package.args,
            package.env,
            user_args,
        ),
        distribution::Preference::Nothing => prepared matches Err(
            RunError::UnavailableDistribution { agent_id },
        ) && agent_id@ == agent.id@,
    }
}

/// Prepares the command for an agent. A binary goes through the steps of
/// [`crate::runtime::binary`] first.
pub fn prepare_run_command<'a>(
    agent: &'a RegistryAgent,
    user_args: &'a [String],
    os: &str,
    arch: &str,
) -> (prepared: Result<RunPreparation<'a>, RunError>)
    ensures
        is_run_prepared(*agent, text::texts(user_args@), os@, arch@, prepared),
{
    match choose_source(&agent.distribution, os, arch, UnknownPlatform::Refuse) {
        Err(error) => Err(RunError::UnsupportedPlatform(error)),
        Ok(Source::Binary { platform: _, target }) => Ok(
            RunPreparation::Binary(
                TempDirStep {
                    job: BinaryJob {
                        agent_id: agent.id.as_str(),
                        target,
                        user_args,
                        style: PathStyle::of(os),
                    },
                },
            ),
        ),
        Ok(Source::Npx(npx)) => Ok(
            RunPreparation::Ready(
                PreparedCommand {
                    spec: package_command_spec(
                        "npx",
                        npx.package.as_str(),
                        &npx.args,
                        &npx.env,
                        user_args,
                    ),
                    temp_dir: None,
                },
            ),
        ),
        Ok(Source::Uvx(uvx)) => Ok(
            RunPreparation::Ready(
                PreparedCommand {
                    spec: package_command_spec(
                        "uvx",
                        uvx.package.as_str(),
                        &uvx.args,
                        &uvx.env,
                        user_args,
                    ),
                    temp_dir: None,
                },
            ),
        ),
        Ok(Source::Nothing) => Err(
            RunError::UnavailableDistribution { agent_id: agent.id.clone() },
        ),
    }
}

/// Whether `running` is what comes of looking up `agent_id` and preparing the agent's command.
pub open spec fn is_running(
    fetched: Result<&Registry, RegistryError>,
    agent_id: Seq<char>,
    user_args: Seq<Seq<char>>,
    os: Seq<char>,
    arch: Seq<char>,
    running: Result<(&RegistryAgent, RunPreparation), RunError>,
) -> bool {
    match fetched {
        Err(cause) => running matches Err(error) && error == RunError::FetchRegistry(cause),
        Ok(registry) => if registry::none_with_id(registry.agents@, agent_id) {
            running matches Err(RunError::AgentNotFound(RegistryError::AgentNotFound { id })) && id@
                == agent_id
        } else {
            exists|i: int|
                #[trigger] registry::first_with_id(registry.agents@, agent_id, i) && match running {
                    Ok((agent, preparation)) => *agent == registry.agents@[i] && is_run_prepared(
                        registry.agents@[i],
                        user_args,
                        os,
                        arch,
                        Ok(preparation),
                    ),
                    Err(error) => is_run_prepared(
                        registry.agents@[i],
                        user_args,
                        os,
                        arch,
                        Err(error),
                    ),
                }
        },
    }
}

/// Takes what came of fetching the registry, looks up the agent and prepares its command.
pub fn run_agent<'a>(
    fetched: Result<&'a Registry, RegistryError>,
    agent_id: &str,
    user_args: &'a [String],
    os: &str,
    arch: &str,
) -> (running: Result<(&'a RegistryAgent, RunPreparation<'a>), RunError>)
    ensures
        is_running(fetched, agent_id@, text::texts(user_args@), os@, arch@, running),
{
    match fetched {
        Err(error) => Err(RunError::FetchRegistry(error)),
        Ok(registry) => {
            match registry.get_agent(agent_id) {
                Err(error) => Err(RunError::AgentNotFound(error)),
                Ok(agent) => {
                    proof {
                        registry::lookup_is_unambiguous(registry.agents@, agent_id@, 0, 0);
                    }
                    match prepare_run_command(agent, user_args, os, arch) {
                        Ok(preparation) => Ok((agent, preparation)),
                        Err(error) => Err(error),
                    }
                },
            }
        },
    }
}

/// Takes what came of running the process of `spec` for `subject` on the terminal.
pub fn run_command_interactive(
    spec: &CommandSpec,
    subject: &str,
    outcome: Result<ProcessStatus, IoError>,
) -> (status: Result<ProcessStatus, RunError>)
    ensures
        match (outcome, status) {
            (Ok(ended), Ok(reported)) => reported == ended,
            (Err(e), Err(RunError::CommandIo { program, subject: s, source })) => path::is_shown(
                spec.program@,
                program@,
            ) && s@ == subject@ && source == e,
            _ => false,
        },
{
    match outcome {
        Ok(status) => Ok(status),
        Err(source) => Err(
            RunError::CommandIo {
                program: shown(spec.program.as_slice()),
                subject: subject.to_owned(),
                source,
            },
        ),
    }
}

// ---------------------------------------------------------------------------
// Laws
// ---------------------------------------------------------------------------

/// An agent is run from its binary for the platform if it has one, else with `npx` if it has a
/// package for it, else with `uvx` if it has a package for that. On a platform that is not known an
/// agent is refused that has binaries, whatever packages it has.
pub proof fn agents_run_from_their_best_distribution(
    agent: RegistryAgent,
    user_args: Seq<String>,
    os: Seq<char>,
    arch: Seq<char>,
    prepared: Result<RunPreparation, RunError>,
)
    requires
        is_run_prepared(agent, text::texts(user_args), os, arch, prepared),
    ensures
        ({
            let from = agent.distribution;
            let known = registry::platform_of(os, arch);
            if from.binary is Some && known is None {
                prepared matches Err(
                    RunError::UnsupportedPlatform(
                        RegistryError::UnsupportedPlatform { os: o, arch: a },
                    ),
                ) && o@ == os && a@ == arch
            } else if from.binary is Some && from.binary->0.target(known->0) is Some {
                prepared matches Ok(RunPreparation::Binary(step)) && {
                    &&& *step.job.target == from.binary->0.target(known->0)->0
                    &&& step.job.agent_id@ == agent.id@
                    &&& step.job.style == (if os == "windows"@ {
                        PathStyle::Windows
                    } else {
                        PathStyle::Unix
                    })
                    &&& step.job.user_args@.len() == user_args.len()
                    &&& forall|i: int|
                        0 <= i < user_args.len() ==> (#[trigger] step.job.user_args@[i])@
                            == user_args[i]@
                }
            } else if from.npx is Some {
                prepared matches Ok(RunPreparation::Ready(command)) && command.temp_dir is None
                    && command.spec@ == prepare::package_command(
                    "npx"@,
                    from.npx->0.package@,
                    from.npx->0.args,
                    from.npx->0.env,
                    text::texts(user_args),
                ) && command.spec.args@[0]@ == from.npx->0.package@
            } else if from.uvx is Some {
                prepared matches Ok(RunPreparation::Ready(command)) && command.temp_dir is None
                    && command.spec@ == prepare::package_command(
                    "uvx"@,
                    from.uvx->0.package@,
                    from.uvx->0.args,
                    from.uvx->0.env,
                    text::texts(user_args),
                ) && command.spec.args@[0]@ == from.uvx->0.package@
            } else {
                prepared matches Err(RunError::UnavailableDistribution { agent_id }) && agent_id@
                    == agent.id@
            }
        }),
{
    match prepared {
        Ok(RunPreparation::Ready(command)) => {
            let (runner, package) = match agent.distribution.npx {
                Some(npx) => ("npx"@, npx),
                None => ("uvx"@, agent.distribution.uvx->0),
            };
            prepare::package_commands_hold_every_argument(
                runner,
                package.package@,
                package.args,
                package.env,
                user_args,
                command.spec,
            );
        },
        Ok(RunPreparation::Binary(step)) => {
            let given = step.job.user_args@;
            text::texts_hold_every_string(user_args, Seq::empty());
            text::texts_hold_every_string(given, Seq::empty());
            assert forall|i: int| 0 <= i < user_args.len() implies (#[trigger] given[i])@
                == user_args[i]@ by {
                assert(text::texts(given)[i] == text::texts(user_args)[i]);
            }
        },
        Err(error) => {},
    }
}

/// An agent that is not in the registry is not run, and one that is there is run as the first entry
/// with its identifier says. A registry that could not be fetched is reported with its own error.
pub proof fn agents_are_run_by_their_identifier(
    fetched: Result<&Registry, RegistryError>,
    agent_id: Seq<char>,
    user_args: Seq<Seq<char>>,
    os: Seq<char>,
    arch: Seq<char>,
    running: Result<(&RegistryAgent, RunPreparation), RunError>,
)
    requires
        is_running(fetched, agent_id, user_args, os, arch, running),
    ensures
        fetched matches Err(cause) ==> (running matches Err(RunError::FetchRegistry(error))
            && error == cause),
        fetched matches Ok(registry) ==> ((running matches Err(RunError::AgentNotFound(_)))
            <==> (forall|j: int|
            0 <= j < registry.agents@.len() ==> (#[trigger] registry.agents@[j]).id@ != agent_id)),
        fetched is Ok ==> (running matches Ok((agent, preparation)) ==> agent.id@ == agent_id),
        fetched matches Ok(registry) ==> (running matches Ok((agent, preparation)) ==> exists|
            i: int,
        |
            0 <= i < registry.agents@.len() && #[trigger] registry.agents@[i] == *agent && (forall|
                j: int,
            |
                0 <= j < i ==> (#[trigger] registry.agents@[j]).id@ != agent_id)),
{
    match fetched {
        Ok(registry) => {
            let agents = registry.agents@;
            registry::agents_are_looked_up_by_their_identifier(agents, agent_id, 0);
            if !registry::none_with_id(agents, agent_id) {
                let i = choose|i: int|
                    #[trigger] registry::first_with_id(agents, agent_id, i) && match running {
                        Ok((agent, preparation)) => *agent == agents[i] && is_run_prepared(
                            agents[i],
                            user_args,
                            os,
                            arch,
                            Ok(preparation),
                        ),
                        Err(error) => is_run_prepared(
                            agents[i],
                            user_args,
                            os,
                            arch,
                            Err(error),
                        ),
                    };
                registry::agents_are_looked_up_by_their_identifier(agents, agent_id, i);
                assert(agents[i].id@ == agent_id);
            }
        },
        Err(cause) => {},
    }
}

/// The errors of installing that running has too keep their kind and what they hold.
pub proof fn errors_of_installing_keep_their_kind(error: InstallError, run: RunError)
    requires
        is_from_install(error, run),
    ensures
        match (error, run) {
            (InstallError::FetchRegistry(e), RunError::FetchRegistry(r)) => r == e,
            (InstallError::AgentNotFound(e), RunError::AgentNotFound(r)) => r == e,
            (InstallError::UnsupportedPlatform(e), RunError::UnsupportedPlatform(r)) => r == e,
            (
                InstallError::UnavailableDistribution { agent_id: e },
                RunError::UnavailableDistribution { agent_id },
            ) => agent_id == e,
            (InstallError::InvalidArchiveUrl(e), RunError::InvalidArchiveUrl(r)) => r == e,
            (InstallError::InvalidCommandPath(e), RunError::InvalidCommandPath(r)) => r == e,
            (
                InstallError::BinaryNotFound { archive: a, cmd: c, resolved_path: p },
                RunError::BinaryNotFound { archive, cmd, resolved_path },
            ) => archive == a && cmd == c && resolved_path == p,
            (
                InstallError::UnsupportedArchiveFormat(e),
                RunError::UnsupportedArchiveFormat(r),
            ) => r == e,
            (InstallError::UnsafeArchiveEntry(e), RunError::UnsafeArchiveEntry(r)) => r == e,
            (InstallError::Request(e), RunError::Request(r)) => r == e,
            (InstallError::Io(e), RunError::Io(r)) => r == e,
            (InstallError::Zip(e), RunError::Zip(r)) => r == e,
            (InstallError::Join(e), RunError::Join(r)) => r == e,
            (InstallError::MissingHomeDirectory, RunError::Io(io)) => io.kind
                == IoErrorKind::NotFound,
            (
                InstallError::CommandIo { program: p, source: e },
                RunError::CommandIo { program, subject, source },
            ) => program == p && source == e,
            (
                InstallError::CommandFailed { program: p, subject: s, detail: d },
                RunError::CommandIo { program, subject, source },
            ) => program == p && text::occurs_in(subject@, s@) && text::occurs_in(subject@, d@),
            _ => false,
        },
{
    match error {
        InstallError::CommandFailed { program, subject, detail } => {
            let front = subject@ + ": "@;
            text::lemma_part_occurs(Seq::empty(), subject@, ": "@);
            assert(Seq::<char>::empty() + subject@ + ": "@ =~= front);
            text::lemma_occurs_further(Seq::empty(), front, detail@, subject@);
            text::lemma_ending_occurs(front, detail@);
        },
        _ => {},
    }
}

/// What an error is about is shown in its description in full.
pub proof fn errors_show_what_they_are_about(error: RunError)
    ensures
        match error {
            RunError::FetchRegistry(cause) => error.text() == cause.text(),
            RunError::AgentNotFound(cause) => error.text() == cause.text(),
            RunError::UnsupportedPlatform(cause) => error.text() == cause.text(),
            RunError::UnavailableDistribution { agent_id } => text::occurs_in(
                error.text(),
                agent_id@,
            ),
            RunError::InvalidArchiveUrl(url) => text::occurs_in(error.text(), url@),
            RunError::InvalidCommandPath(cmd) => text::occurs_in(error.text(), cmd@),
            RunError::BinaryNotFound { archive, cmd, resolved_path } => text::occurs_in(
                error.text(),
                archive@,
            ) && text::occurs_in(error.text(), cmd@) && text::occurs_in(
                error.text(),
                resolved_path@,
            ),
            RunError::UnsupportedArchiveFormat(path) => text::occurs_in(error.text(), path@),
            RunError::UnsafeArchiveEntry(entry) => text::occurs_in(error.text(), entry@),
            RunError::Request(cause) => text::occurs_in(error.text(), cause@),
            RunError::Io(cause) => text::occurs_in(error.text(), cause.message@),
            RunError::Zip(cause) => text::occurs_in(error.text(), cause@),
            RunError::Join(cause) => text::occurs_in(error.text(), cause@),
            RunError::CommandIo { program, subject, source } => text::occurs_in(
                error.text(),
                program@,
            ) && text::occurs_in(error.text(), subject@) && text::occurs_in(
                error.text(),
                source.message@,
            ),
        },
{
    let none = Seq::<char>::empty();
    match error {
        RunError::UnavailableDistribution { agent_id } => {
            text::lemma_part_occurs(
                "Agent \""@,
                agent_id@,
                "\" does not have a runnable distribution"@,
            );
        },
        RunError::InvalidArchiveUrl(url) => {
            text::lemma_ending_occurs("Invalid archive URL: "@, url@);
        },
        RunError::InvalidCommandPath(cmd) => {
            text::lemma_ending_occurs("Invalid binary command path: "@, cmd@);
        },
        RunError::BinaryNotFound { archive, cmd, resolved_path } => {
            let a = "Downloaded "@ + archive@ + ", but could not find \""@;
            let b = a + cmd@ + "\" at "@;
            text::lemma_part_occurs("Downloaded "@, archive@, ", but could not find \""@);
            text::lemma_occurs_further(none, a, cmd@, archive@);
            text::lemma_occurs_further(none, a + cmd@, "\" at "@, archive@);
            text::lemma_occurs_further(none, b, resolved_path@, archive@);
            text::lemma_part_occurs(a, cmd@, "\" at "@);
            text::lemma_occurs_further(none, b, resolved_path@, cmd@);
            text::lemma_ending_occurs(b, resolved_path@);
        },
        RunError::UnsupportedArchiveFormat(path) => {
            text::lemma_ending_occurs("Unsupported archive format for "@, path@);
        },
        RunError::UnsafeArchiveEntry(entry) => {
            text::lemma_ending_occurs("Archive contains unsafe path: "@, entry@);
        },
        RunError::Request(cause) => {
            text::lemma_ending_occurs("Network request failed: "@, cause@);
        },
        RunError::Io(cause) => {
            text::lemma_ending_occurs("I/O failed: "@, cause.message@);
        },
        RunError::Zip(cause) => {
            text::lemma_ending_occurs("ZIP extraction failed: "@, cause@);
        },
        RunError::Join(cause) => {
            text::lemma_ending_occurs("Blocking task failed: "@, cause@);
        },
        RunError::CommandIo { program, subject, source } => {
            let a = "Failed to run "@ + program@ + " for "@;
            let b = a + subject@ + ": "@;
            text::lemma_part_occurs("Failed to run "@, program@, " for "@);
            text::lemma_occurs_further(none, a, subject@, program@);
            text::lemma_occurs_further(none, a + subject@, ": "@, program@);
            text::lemma_occurs_further(none, b, source.message@, program@);
            text::lemma_part_occurs(a, subject@, ": "@);
            text::lemma_occurs_further(none, b, source.message@, subject@);
            text::lemma_ending_occurs(b, source.message@);
        },
        _ => {},
    }
}

/// What made a step of a preparation fail is reported as what it is.
pub proof fn causes_of_failed_steps_keep_their_kind(cause: PreparationCause, run: RunError)
    requires
        is_from_cause(cause, run),
    ensures
        match cause {
            PreparationCause::Join(e) => run == RunError::Join(e),
            PreparationCause::Io(e) => run == RunError::Io(e),
            PreparationCause::Install(e) => is_from_install(e, run),
        },
{
}

} // verus!
