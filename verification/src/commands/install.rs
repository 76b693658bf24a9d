//! The `install` command: a binary in the user's own directory, or a package by its manager.
use vstd::prelude::*;
use vstd::string::*;
use vstd::utf8::*;

use crate::commands::run;
use crate::commands::run::preparation_failed;
use crate::path;
use crate::path::{file_name, join, join_text, shown, text_of_bytes, OsText, PathStyle};
use crate::registry;
use crate::registry::{
    BinaryTarget, NpxDistribution, Registry, RegistryAgent, RegistryError, UvxDistribution,
};
use crate::runtime::binary::{BinaryJob, PreparationFailure};
use crate::runtime::cache;
use crate::runtime::cache::{CacheLookup, CacheStep, CachedBinary, StoreError, StoreFailure};
use crate::runtime::distribution;
use crate::runtime::distribution::{choose_source, Source, UnknownPlatform};
use crate::runtime::error::RuntimeError;
use crate::runtime::process::ProcessStatus;
use crate::text;
use crate::text::{chars_of, string_of, trim_chars};

verus! {

/// How an agent was installed.
#[derive(Debug, Clone, Copy, PartialEq, Eq, Structural)]
pub enum InstallMethod {
    /// From a binary archive.
    Binary,
    /// As a package of npm.
    Npx,
    /// As a package of uv.
    Uvx,
}

impl InstallMethod {
    /// The name shown to people.
    pub open spec fn label(self) -> Seq<char> {
        match self {
            InstallMethod::Binary => "binary"@,
            InstallMethod::Npx => "npm"@,
            InstallMethod::Uvx => "uv"@,
        }
    }
}

/// What was installed.
#[derive(Debug, Clone, PartialEq, Eq)]
pub enum InstallOutcome {
    /// A binary was copied to the user's own directory.
    Binary {
        /// The agent's identifier.
        agent_id: String,
        /// The path of the copied executable.
        path: OsText,
    },
    /// A package manager installed the agent.
    PackageManager {
        /// The agent's identifier.
        agent_id: String,
        /// The package manager.
        method: InstallMethod,
        /// The package.
        package: String,
    },
}

impl InstallOutcome {
    /// The text that describes the outcome.
    pub open spec fn text(self) -> Seq<char> {
        match self {
            InstallOutcome::Binary { agent_id, path } => "Installed "@ + agent_id@ + " to "@
                + path::lossy_text(path@),
            InstallOutcome::PackageManager { agent_id, method, package } => "Installed "@
                + agent_id@ + " via "@ + method.label() + ": "@ + package@,
        }
    }

    /// Describes the outcome. A path that is UTF-8 is shown as it is.
    pub fn message(&self) -> (out: String)
        ensures
            out@ == self.text(),
            match *self {
                InstallOutcome::Binary { agent_id, path } => valid_utf8(path@) ==> out@
                    == "Installed "@ + agent_id@ + " to "@ + decode_utf8(path@),
                _ => true,
            },
    {
        match self {
            InstallOutcome::Binary { agent_id, path } => {
                let mut out = "Installed ".to_owned();
                out.append(agent_id.as_str());
                out.append(" to ");
                out.append(shown(path.as_slice()).as_str());
                out
            },
            InstallOutcome::PackageManager { agent_id, method, package } => {
                let installer = match method {
                    InstallMethod::Binary => "binary",
                    InstallMethod::Npx => "npm",
                    InstallMethod::Uvx => "uv",
                };
                let mut out = "Installed ".to_owned();
                out.append(agent_id.as_str());
                out.append(" via ");
                out.append(installer);
                out.append(": ");
                out.append(package.as_str());
                out
            },
        }
    }
}

/// Why an agent could not be installed. Where an outside operation failed, `cause` is its own
/// description.
#[derive(Debug, Clone, PartialEq, Eq)]
pub enum InstallError {
    /// The registry could not be used.
    Registry(RegistryError),
    /// The agent cannot be installed on this platform.
    NotInstallable {
        /// The agent's identifier.
        agent_id: String,
    },
    /// The archive could not be made available.
    Archive(RuntimeError),
    /// The archive could not be kept in the cache.
    Store(StoreError),
    /// The user has no home directory.
    NoHomeDirectory,
    /// The directory to install to could not be created.
    CreateDirectory {
        /// The directory.
        path: String,
        /// What went wrong.
        cause: String,
    },
    /// The command of the archive does not name a file.
    InvalidCommandPath {
        /// The command.
        cmd: String,
    },
    /// The executable could not be copied.
    Copy {
        /// The executable.
        source: String,
        /// Where it was to be copied.
        destination: String,
        /// What went wrong.
        cause: String,
    },
    /// The copy could not be made executable.
    MakeExecutable {
        /// What went wrong.
        cause: String,
    },
    /// The package manager could not be started.
    StartCommand {
        /// The package manager.
        program: String,
        /// What went wrong.
        cause: String,
    },
    /// The package manager failed.
    CommandFailed {
        /// The package manager.
        program: String,
        /// What it was to install.
        subject: String,
        /// What it said, if it said anything.
        detail: String,
    },
}

impl InstallError {
    /// The text that describes the error.
    pub open spec fn text(self) -> Seq<char> {
        match self {
            InstallError::Registry(error) => error.text(),
            InstallError::NotInstallable { agent_id } => "agent \""@ + agent_id@
                + "\" does not have an installable distribution"@,
            InstallError::Archive(error) => error.text(),
            InstallError::Store(error) => error.text(),
            InstallError::NoHomeDirectory => "could not determine the current user's home directory"@,
            InstallError::CreateDirectory { path, cause } => "failed to create "@ + path@,
            InstallError::InvalidCommandPath { cmd } => "invalid binary command path: "@ + cmd@,
            InstallError::Copy { source, destination, cause } => "failed to copy "@ + source@
                + " to "@ + destination@,
            InstallError::MakeExecutable { cause } => cause@,
            InstallError::StartCommand { program, cause } => "failed to run "@ + program@,
            InstallError::CommandFailed { program, subject, detail } => if detail@.len() == 0 {
                "failed to run "@ + program@ + " for "@ + subject@
            } else {
                "failed to run "@ + program@ + " for "@ + subject@ + ": "@ + detail@
            },
        }
    }

    /// Describes the error.
    pub fn message(&self) -> (out: String)
        ensures
            out@ == self.text(),
    {
        match self {
            InstallError::Registry(error) => error.message(),
            InstallError::NotInstallable { agent_id } => {
                let mut out = "agent \"".to_owned();
                out.append(agent_id.as_str());
                out.append("\" does not have an installable distribution");
                out
            },
            InstallError::Archive(error) => error.message(),
            InstallError::Store(error) => error.message(),
            InstallError::NoHomeDirectory => {
                "could not determine the current user's home directory".to_owned()
            },
            InstallError::CreateDirectory { path, cause } => {
                let mut out = "failed to create ".to_owned();
                out.append(path.as_str());
                out
            },
            InstallError::InvalidCommandPath { cmd } => {
                let mut out = "invalid binary command path: ".to_owned();
                out.append(cmd.as_str());
                out
            },
            InstallError::Copy { source, destination, cause } => {
                let mut out = "failed to copy ".to_owned();
                out.append(source.as_str());
                out.append(" to ");
                out.append(destination.as_str());
                out
            },
            InstallError::MakeExecutable { cause } => cause.clone(),
            InstallError::StartCommand { program, cause } => {
                let mut out = "failed to run ".to_owned();
                out.append(program.as_str());
                out
            },
            InstallError::CommandFailed { program, subject, detail } => {
                let mut out = "failed to run ".to_owned();
                out.append(program.as_str());
                out.append(" for ");
                out.append(subject.as_str());
                if !detail.as_str().is_empty() {
                    out.append(": ");
                    out.append(detail.as_str());
                }
                out
            },
        }
    }
}

impl InstallError {
    /// The description of the failure that the error was given as its cause, if any.
    pub open spec fn cause_text(self) -> Option<Seq<char>> {
        match self {
            InstallError::Archive(error) => error.cause_text(),
            InstallError::Store(error) => error.cause_text(),
            InstallError::CreateDirectory { path, cause } => Some(cause@),
            InstallError::Copy { source, destination, cause } => Some(cause@),
            InstallError::StartCommand { program, cause } => Some(cause@),
            _ => None,
        }
    }

    /// The description of the failure that lies behind the error, if any.
    pub fn cause(&self) -> (out: Option<String>)
        ensures
            text::text_option(out) == self.cause_text(),
    {
        match self {
            InstallError::Archive(error) => error.cause(),
            InstallError::Store(error) => error.cause(),
            InstallError::CreateDirectory { path, cause } => Some(cause.clone()),
            InstallError::Copy { source, destination, cause } => Some(cause.clone()),
            InstallError::StartCommand { program, cause } => Some(cause.clone()),
            _ => None,
        }
    }
}

// ---------------------------------------------------------------------------
// What is installed
// ---------------------------------------------------------------------------

/// A package manager to run.
#[derive(Debug, Clone, PartialEq, Eq)]
pub struct PackageInstall {
    /// The package manager.
    pub program: String,
    /// Its arguments.
    pub args: Vec<String>,
    /// What it installs, in the form shown to people.
    pub subject: String,
    /// The agent's identifier.
    pub agent_id: String,
    /// How the agent is installed.
    pub method: InstallMethod,
    /// The package.
    pub package: String,
}

/// Whether `install` installs `package` for the agent `agent_id` with npm.
pub open spec fn installs_with_npm(
    install: PackageInstall,
    agent_id: Seq<char>,
    package: Seq<char>,
) -> bool {
    &&& install.program@ == "npm"@
    &&& text::texts(install.args@) == seq!["i"@, "-g"@, package]
    &&& install.subject@ == "npm package "@ + package
    &&& install.agent_id@ == agent_id
    &&& install.method == InstallMethod::Npx
    &&& install.package@ == package
}

/// Whether `install` installs `package` for the agent `agent_id` with uv.
pub open spec fn installs_with_uv(
    install: PackageInstall,
    agent_id: Seq<char>,
    package: Seq<char>,
) -> bool {
    &&& install.program@ == "uv"@
    &&& text::texts(install.args@) == seq!["tool"@, "install"@, package]
    &&& install.subject@ == "uv package "@ + package
    &&& install.agent_id@ == agent_id
    &&& install.method == InstallMethod::Uvx
    &&& install.package@ == package
}

fn package_install(
    program: &str,
    first: &str,
    second: &str,
    label: &str,
    agent_id: &str,
    method: InstallMethod,
    package: &str,
) -> (install: PackageInstall)
    ensures
        install.program@ == program@,
        text::texts(install.args@) == seq![first@, second@, package@],
        install.subject@ == label@ + package@,
        install.agent_id@ == agent_id@,
        install.method == method,
        install.package@ == package@,
{
    let mut args: Vec<String> = Vec::new();
    args.push(first.to_owned());
    args.push(second.to_owned());
    args.push(package.to_owned());
    assert(text::texts(args@) =~= seq![first@, second@, package@]);
    let mut subject = label.to_owned();
    subject.append(package);
    PackageInstall {
        program: program.to_owned(),
        args,
        subject,
        agent_id: agent_id.to_owned(),
        method,
        package: package.to_owned(),
    }
}

/// The installation of a package of npm.
pub fn install_npx(agent: &RegistryAgent, distribution: &NpxDistribution) -> (install:
    PackageInstall)
    ensures
        installs_with_npm(install, agent.id@, distribution.package@),
        install.program@ == "npm"@,
        install.args@.len() == 3,
        install.args@[0]@ == "i"@,
        install.args@[1]@ == "-g"@,
        install.args@[2]@ == distribution.package@,
        install.package@ == distribution.package@,
{
    let install = package_install(
        "npm",
        "i",
        "-g",
        "npm package ",
        agent.id.as_str(),
        InstallMethod::Npx,
        distribution.package.as_str(),
    );
    proof {
        npm_installs_the_named_package(install, agent.id@, distribution.package@);
    }
    install
}

/// The installation of a package of uv.
pub fn install_uvx(agent: &RegistryAgent, distribution: &UvxDistribution) -> (install:
    PackageInstall)
    ensures
        installs_with_uv(install, agent.id@, distribution.package@),
        install.program@ == "uv"@,
        install.args@.len() == 3,
        install.args@[0]@ == "tool"@,
        install.args@[1]@ == "install"@,
        install.args@[2]@ == distribution.package@,
        install.package@ == distribution.package@,
{
    let install = package_install(
        "uv",
        "tool",
        "install",
        "uv package ",
        agent.id.as_str(),
        InstallMethod::Uvx,
        distribution.package.as_str(),
    );
    proof {
        uv_installs_the_named_package(install, agent.id@, distribution.package@);
    }
    install
}

/// What installing an agent takes.
pub enum InstallPlan<'a> {
    /// The archive is kept in the cache, and its executable copied.
    Binary(BinaryInstall<'a>),
    /// A package manager is run.
    Package(PackageInstall),
}

/// An archive whose executable is to be installed.
pub struct BinaryInstall<'a> {
    /// The agent.
    pub agent: &'a RegistryAgent,
    /// The archive.
    pub target: &'a BinaryTarget,
    /// How paths are written.
    pub style: PathStyle,
}

/// Whether `plan` is what installing `agent` takes on the operating system `os` and the
/// architecture `arch`.
pub open spec fn is_install_plan(
    agent: RegistryAgent,
    os: Seq<char>,
    arch: Seq<char>,
    plan: Result<InstallPlan, InstallError>,
) -> bool {
    match distribution::preference(
        agent.distribution,
        registry::platform_of(os, arch),
        UnknownPlatform::UsePackages,
    ) {
        distribution::Preference::Unsupported => plan matches Err(
            InstallError::Registry(RegistryError::UnsupportedPlatform { os: o, arch: a }),
        ) && o@ == os && a@ == arch,
        distribution::Preference::Binary(target) => plan matches Ok(InstallPlan::Binary(install))
            && *install.agent == agent && *install.target == target && install.style
            == path::style_of(os),
        distribution::Preference::Npx(npx) => plan matches Ok(InstallPlan::Package(install))
            && installs_with_npm(install, agent.id@, npx.package@),
        distribution::Preference::Uvx(uvx) => plan matches Ok(InstallPlan::Package(install))
            && installs_with_uv(install, agent.id@, uvx.package@),
        distribution::Preference::Nothing => plan matches Err(
            InstallError::NotInstallable { agent_id },
        ) && agent_id@ == agent.id@,
    }
}

/// Decides how an agent is installed: a binary for the platform comes first, a package of npm
/// second and one of uv last.
pub fn install_from_registry<'a>(agent: &'a RegistryAgent, os: &str, arch: &str) -> (plan: Result<
    InstallPlan<'a>,
    InstallError,
>)
    ensures
        is_install_plan(*agent, os@, arch@, plan),
{
    match choose_source(&agent.distribution, os, arch, UnknownPlatform::UsePackages) {
        Err(error) => Err(InstallError::Registry(error)),
        Ok(Source::Binary { platform: _, target }) => Ok(
            InstallPlan::Binary(BinaryInstall { agent, target, style: PathStyle::of(os) }),
        ),
        Ok(Source::Npx(npx)) => Ok(InstallPlan::Package(install_npx(agent, npx))),
        Ok(Source::Uvx(uvx)) => Ok(InstallPlan::Package(install_uvx(agent, uvx))),
        Ok(Source::Nothing) => Err(InstallError::NotInstallable { agent_id: agent.id.clone() }),
    }
}

/// Looks up the agent `agent_id` and decides how it is installed.
pub fn install_agent<'a>(registry: &'a Registry, agent_id: &str, os: &str, arch: &str) -> (plan:
    Result<InstallPlan<'a>, InstallError>)
    ensures
        if registry::none_with_id(registry.agents@, agent_id@) {
            plan matches Err(InstallError::Registry(RegistryError::AgentNotFound { id })) && id@
                == agent_id@
        } else {
            exists|i: int|
                #[trigger] registry::first_with_id(registry.agents@, agent_id@, i)
                    && is_install_plan(registry.agents@[i], os@, arch@, plan)
        },
{
    match registry.get_agent(agent_id) {
        Ok(agent) => {
            proof {
                registry::lookup_is_unambiguous(registry.agents@, agent_id@, 0, 0);
            }
            install_from_registry(agent, os, arch)
        },
        Err(error) => Err(InstallError::Registry(error)),
    }
}

// ---------------------------------------------------------------------------
// Package managers
// ---------------------------------------------------------------------------

/// What a command left behind.
#[derive(Debug, Clone, PartialEq, Eq)]
pub struct CommandOutput {
    /// How it ended.
    pub status: ProcessStatus,
    /// Its standard output.
    pub stdout: Vec<u8>,
    /// Its standard error.
    pub stderr: Vec<u8>,
}

/// What a failed command said: on standard error if it said anything there, else on standard
/// output. White space around it does not count.
pub open spec fn failure_detail(stdout: Seq<char>, stderr: Seq<char>) -> Seq<char> {
    if text::trim(stderr).len() > 0 {
        text::trim(stderr)
    } else {
        text::trim(stdout)
    }
}

/// Whether everything that a command left behind is UTF-8.
pub open spec fn said_in_utf8(output: CommandOutput) -> bool {
    valid_utf8(output.stdout@) && valid_utf8(output.stderr@)
}

/// What a failed command said, given the texts of its standard output and standard error.
pub fn command_detail(stdout: &str, stderr: &str) -> (detail: String)
    ensures
        detail@ == failure_detail(stdout@, stderr@),
{
    let said = trim_chars(chars_of(stderr).as_slice());
    if said.len() > 0 {
        string_of(said.as_slice())
    } else {
        string_of(trim_chars(chars_of(stdout).as_slice()).as_slice())
    }
}

/// Takes what came of running the package manager `program` for `subject`: that it could not be
/// started, or what it left behind.
pub fn run_command(program: &str, subject: &str, outcome: Result<CommandOutput, String>) -> (done:
    Result<(), InstallError>)
    ensures
        match (outcome, done) {
            (Err(e), Err(InstallError::StartCommand { program: p, cause })) => p@ == program@
                && cause == e,
            (Ok(output), Ok(())) => output.status.is_success(),
            (Ok(output), Err(InstallError::CommandFailed { program: p, subject: s, detail })) => {
                &&& !output.status.is_success()
                &&& p@ == program@
                &&& s@ == subject@
                &&& detail@ == failure_detail(
                    path::lossy_text(output.stdout@),
                    path::lossy_text(output.stderr@),
                )
                &&& said_in_utf8(output) ==> detail@ == failure_detail(
                    decode_utf8(output.stdout@),
                    decode_utf8(output.stderr@),
                )
            },
            _ => false,
        },
{
    match outcome {
        Err(cause) => Err(InstallError::StartCommand { program: program.to_owned(), cause }),
        Ok(output) => {
            if output.status.success() {
                return Ok(());
            }
            let stderr = text_of_bytes(output.stderr.as_slice());
            let stdout = text_of_bytes(output.stdout.as_slice());
            Err(
                InstallError::CommandFailed {
                    program: program.to_owned(),
                    subject: subject.to_owned(),
                    detail: command_detail(stdout.as_str(), stderr.as_str()),
                },
            )
        },
    }
}

impl PackageInstall {
    /// Takes what came of running the package manager.
    pub fn finished(self, outcome: Result<CommandOutput, String>) -> (installed: Result<
        InstallOutcome,
        InstallError,
    >)
        ensures
            match (outcome, installed) {
                (Err(e), Err(InstallError::StartCommand { program, cause })) => program@
                    == self.program@ && cause == e,
                (Ok(output), Ok(installed)) => {
                    &&& output.status.is_success()
                    &&& installed == (InstallOutcome::PackageManager {
                        agent_id: self.agent_id,
                        method: self.method,
                        package: self.package,
                    })
                },
                (Ok(output), Err(InstallError::CommandFailed { program, subject, detail })) => {
                    &&& !output.status.is_success()
                    &&& program@ == self.program@
                    &&& subject@ == self.subject@
                    &&& detail@ == failure_detail(
                        path::lossy_text(output.stdout@),
                        path::lossy_text(output.stderr@),
                    )
                    &&& said_in_utf8(output) ==> detail@ == failure_detail(
                        decode_utf8(output.stdout@),
                        decode_utf8(output.stderr@),
                    )
                },
                _ => false,
            },
    {
        match run_command(self.program.as_str(), self.subject.as_str(), outcome) {
            Ok(()) => Ok(
                InstallOutcome::PackageManager {
                    agent_id: self.agent_id,
                    method: self.method,
                    package: self.package,
                },
            ),
            Err(error) => Err(error),
        }
    }
}

// ---------------------------------------------------------------------------
// Binaries
// ---------------------------------------------------------------------------

/// Trusted: `dirs::home_dir`, as the operating system has it; `None` where there is none. What it
/// is depends on the environment and on the machine, so nothing is promised of it.
#[verifier::external_body]
fn home_dir() -> (home: Option<OsText>) {
    dirs::home_dir().map(|home| home.into_os_string().into_encoded_bytes())
}

/// The directory for the user's own executables.
pub open spec fn install_dir(style: PathStyle, home: Seq<u8>) -> Seq<u8> {
    let own = match style {
        PathStyle::Windows => ".acp-agent"@,
        PathStyle::Unix => ".local"@,
    };
    path::joined(
        style,
        path::joined(style, home, encode_utf8(own)),
        encode_utf8("bin"@),
    )
}

/// The directory for the user's own executables, given the user's home directory.
pub fn install_dir_in(style: PathStyle, home: Option<OsText>) -> (dir: Result<
    OsText,
    InstallError,
>)
    ensures
        match (home, dir) {
            (Some(h), Ok(d)) => d@ == install_dir(style, h@),
            (None, Err(error)) => error == InstallError::NoHomeDirectory,
            _ => false,
        },
{
    match home {
        Some(home) => {
            let own = match style {
                PathStyle::Windows => ".acp-agent",
                PathStyle::Unix => ".local",
            };
            let dir = join_text(style, home.as_slice(), own);
            Ok(join_text(style, dir.as_slice(), "bin"))
        },
        None => Err(InstallError::NoHomeDirectory),
    }
}

/// The directory for the current user's own executables.
pub fn user_install_dir(style: PathStyle) -> (dir: Result<OsText, InstallError>)
    ensures
        match dir {
            Ok(d) => exists|home: Seq<u8>| d@ == #[trigger] install_dir(style, home),
            Err(error) => error == InstallError::NoHomeDirectory,
        },
{
    install_dir_in(style, home_dir())
}

/// The directory to install to has to be created.
pub struct InstallDirStep<'a> {
    /// The archive.
    pub install: BinaryInstall<'a>,
    /// The archive's payload in the cache.
    pub payload: CachedBinary,
    /// The directory to create.
    pub install_dir: OsText,
}

/// The executable has to be copied.
pub struct CopyStep<'a> {
    /// The archive.
    pub install: BinaryInstall<'a>,
    /// The archive's payload in the cache.
    pub payload: CachedBinary,
    /// Where to copy the executable.
    pub destination: OsText,
}

/// The copy has to be given permission to run.
pub struct CopyPermissionStep<'a> {
    /// The archive.
    pub install: BinaryInstall<'a>,
    /// The archive's payload in the cache.
    pub payload: CachedBinary,
    /// The copy.
    pub destination: OsText,
}

impl<'a> BinaryInstall<'a> {
    /// What is to be in the cache: the archive, to be run without arguments of a user.
    pub open spec fn is_job(self, job: BinaryJob) -> bool {
        &&& job.agent_id@ == self.agent.id@
        &&& *job.target == *self.target
        &&& job.user_args@.len() == 0
        &&& job.style == self.style
    }

    /// The step that looks for the archive in the cache. It is populated if the archive is missing
    /// or stale there, so that a later run of the agent finds it.
    pub fn cache(&self) -> (step: CacheStep<'a>)
        ensures
            self.is_job(step.job),
    {
        CacheStep {
            job: BinaryJob {
                agent_id: self.agent.id.as_str(),
                target: self.target,
                user_args: &[],
                style: self.style,
            },
        }
    }

    /// Takes what came of looking for the archive in the cache or of storing it there, or why it
    /// could not be made ready at all. Only an archive that is in the cache is installed. Its
    /// executable is to be installed to the current user's own directory, which depends on the
    /// environment and on the machine.
    pub fn install_binary(
        self,
        available: Result<Result<CachedBinary, StoreFailure<'a>>, PreparationFailure<String>>,
    ) -> (next: Result<InstallDirStep<'a>, InstallError>)
        ensures
            match (available, next) {
                (Err(failure), Err(error)) => error == InstallError::Archive(
                    run::preparation_error(failure),
                ),
                (Ok(Err(unstored)), Err(error)) => error == InstallError::Store(unstored.error),
                (Ok(Ok(cached)), Ok(step)) => {
                    &&& step.install == self
                    &&& step.payload == cached
                    &&& exists|home: Seq<u8>|
                        step.install_dir@ == #[trigger] install_dir(self.style, home)
                },
                (Ok(Ok(cached)), Err(error)) => error == InstallError::NoHomeDirectory,
                _ => false,
            },
    {
        match available {
            Err(failure) => Err(InstallError::Archive(preparation_failed(failure))),
            Ok(Err(unstored)) => Err(InstallError::Store(unstored.error)),
            Ok(Ok(payload)) => {
                let install_dir = user_install_dir(self.style);
                self.install_binary_to(payload, install_dir)
            },
        }
    }

    /// Takes the archive's payload in the cache, and what came of looking for the directory to
    /// install to.
    pub fn install_binary_to(
        self,
        payload: CachedBinary,
        install_dir: Result<OsText, InstallError>,
    ) -> (next: Result<InstallDirStep<'a>, InstallError>)
        ensures
            next == match install_dir {
                Ok(dir) => Ok::<InstallDirStep<'a>, InstallError>(
                    InstallDirStep { install: self, payload, install_dir: dir },
                ),
                Err(error) => Err(error),
            },
    {
        match install_dir {
            Err(error) => Err(error),
            Ok(install_dir) => Ok(InstallDirStep { install: self, payload, install_dir }),
        }
    }
}

impl<'a> InstallDirStep<'a> {
    /// Takes what came of creating the directory. The copy keeps the executable's file name.
    pub fn created(self, outcome: Result<(), String>) -> (next: Result<CopyStep<'a>, InstallError>)
        ensures
            match outcome {
                Err(e) => next matches Err(InstallError::CreateDirectory { path, cause })
                    && path::is_shown(self.install_dir@, path@) && cause == e,
                Ok(()) => match path::name_in(self.install.style, self.payload.command().program) {
                    None => next matches Err(InstallError::InvalidCommandPath { cmd }) && cmd@
                        == self.install.target.cmd@,
                    Some(name) => next matches Ok(step) && step.install == self.install
                        && step.payload == self.payload && step.destination@ == path::joined(
                        self.install.style,
                        self.install_dir@,
                        name,
                    ),
                },
            },
    {
        match outcome {
            Err(cause) => Err(
                InstallError::CreateDirectory { path: shown(self.install_dir.as_slice()), cause },
            ),
            Ok(()) => match file_name(self.install.style, self.payload.executable().as_slice()) {
                None => Err(
                    InstallError::InvalidCommandPath { cmd: self.install.target.cmd.clone() },
                ),
                Some(name) => {
                    let destination = join(
                        self.install.style,
                        self.install_dir.as_slice(),
                        name.as_slice(),
                    );
                    Ok(CopyStep { install: self.install, payload: self.payload, destination })
                },
            },
        }
    }
}

impl<'a> CopyStep<'a> {
    /// The executable to copy.
    pub fn source(&self) -> (path: OsText)
        ensures
            path@ == self.payload.command().program,
    {
        self.payload.executable()
    }

    /// Takes what came of copying the executable.
    pub fn copied(self, outcome: Result<(), String>) -> (next: Result<
        CopyPermissionStep<'a>,
        InstallError,
    >)
        ensures
            match (outcome, next) {
                (Ok(()), Ok(step)) => step == (CopyPermissionStep {
                    install: self.install,
                    payload: self.payload,
                    destination: self.destination,
                }),
                (Err(e), Err(InstallError::Copy { source, destination, cause })) => {
                    &&& path::is_shown(self.payload.command().program, source@)
                    &&& path::is_shown(self.destination@, destination@)
                    &&& cause == e
                },
                _ => false,
            },
    {
        match outcome {
            Ok(()) => Ok(
                CopyPermissionStep {
                    install: self.install,
                    payload: self.payload,
                    destination: self.destination,
                },
            ),
            Err(cause) => Err(
                InstallError::Copy {
                    source: shown(self.payload.executable().as_slice()),
                    destination: shown(self.destination.as_slice()),
                    cause,
                },
            ),
        }
    }
}

impl<'a> CopyPermissionStep<'a> {
    /// Takes what came of giving the copy permission to run.
    pub fn marked(self, outcome: Result<(), String>) -> (installed: Result<
        InstallOutcome,
        InstallError,
    >)
        ensures
            match (outcome, installed) {
                (Ok(()), Ok(InstallOutcome::Binary { agent_id, path })) => agent_id@
                    == self.install.agent.id@ && path == self.destination,
                (Err(e), Err(error)) => error == (InstallError::MakeExecutable { cause: e }),
                _ => false,
            },
    {
        match outcome {
            Ok(()) => Ok(
                InstallOutcome::Binary {
                    agent_id: self.install.agent.id.clone(),
                    path: self.destination,
                },
            ),
            Err(cause) => Err(InstallError::MakeExecutable { cause }),
        }
    }
}

// ---------------------------------------------------------------------------
// Laws
// ---------------------------------------------------------------------------

/// A copied executable lies in the directory it is installed to, directly, under its own file
/// name. Left out are names that begin like a drive, and names that hold a `/`, which only a
/// verbatim path can have.
pub proof fn installed_binary_lies_in_install_dir(
    style: PathStyle,
    home: Seq<u8>,
    source_path: Seq<u8>,
)
    requires
        path::name_in(style, source_path) is Some,
        !path::has_drive(style, path::name_in(style, source_path)->0),
        path::is_verbatim(style, source_path) ==> path::is_segment(
            style.usual(),
            path::name_in(style, source_path)->0,
        ),
    ensures
        path::joined(style, install_dir(style, home), path::name_in(style, source_path)->0)
            == path::entry(
            style,
            install_dir(style, home),
            path::name_in(style, source_path)->0,
        ),
        path::is_segment(style.usual(), path::name_in(style, source_path)->0),
{
    reveal_strlit("bin");
    path::file_name_is_one_segment(style, source_path);
    let dir = install_dir(style, home);
    let last = encode_utf8("bin"@);
    assert(is_ascii_chars("bin"@));
    is_ascii_chars_encode_utf8("bin"@);
    assert("bin"@[0] == 'b' && "bin"@[1] == 'i' && "bin"@[2] == 'n');
    assert(last.len() == 3 && last[0] == 'b' as u8 && last[1] == 'i' as u8 && last[2] == 'n' as u8);
    let own = match style {
        PathStyle::Windows => ".acp-agent"@,
        PathStyle::Unix => ".local"@,
    };
    let above = path::joined(style, home, encode_utf8(own));
    assert(dir == path::joined(style, above, last));
    if path::is_verbatim(style, above) {
        path::verbatim_stays_verbatim(style, above, last);
    } else {
        assert(dir.len() >= 3 && dir.last() == last[2]);
    }
    path::joined_segment_is_an_entry(style, dir, path::name_in(style, source_path)->0);
}

/// Installing and running an agent use the same distribution on every known platform, and fail
/// together: a binary where the other uses the same binary, and a package where the other uses the
/// same package.
pub proof fn install_and_run_use_the_same_distribution(
    agent: RegistryAgent,
    user_args: Seq<Seq<char>>,
    os: Seq<char>,
    arch: Seq<char>,
    plan: Result<InstallPlan, InstallError>,
    prepared: Result<run::RunPreparation, RuntimeError>,
)
    requires
        registry::platform_of(os, arch) is Some,
        is_install_plan(agent, os, arch, plan),
        run::is_run_prepared(agent, user_args, os, arch, prepared),
    ensures
        plan is Err <==> prepared is Err,
        plan matches Ok(InstallPlan::Binary(install)) ==> (prepared matches Ok(
            run::RunPreparation::Binary(step),
        ) && *step.job.target == *install.target),
        plan matches Ok(InstallPlan::Package(install)) ==> (prepared matches Ok(
            run::RunPreparation::Ready(command),
        ) && command.spec@.args[0] == install.package@ && command.spec.args@[0]@ == install.package@
            && install.args@[install.args@.len() - 1]@ == install.package@),
{
    match (plan, prepared) {
        (Ok(InstallPlan::Package(install)), Ok(run::RunPreparation::Ready(command))) => {
            text::texts_hold_every_string(install.args@, command.spec.env@);
            text::texts_hold_every_string(command.spec.args@, command.spec.env@);
            assert(text::texts(install.args@)[2] == install.package@);
            assert(text::texts(command.spec.args@)[0] == command.spec@.args[0]);
        },
        _ => {},
    }
}

/// What `install` keeps in the cache is what a later `run` of the agent finds there and runs: the
/// archive is not downloaded again. `stored` is the job that was stored in the entry, with its
/// record, and `lookup` is what the later run finds.
pub proof fn run_reuses_what_install_stored(
    install: BinaryInstall,
    stored: BinaryJob,
    later: BinaryJob,
    cache_home: Seq<u8>,
    lookup: CacheLookup,
)
    requires
        install.is_job(stored),
        later.agent_id@ == install.agent.id@,
        *later.target == *install.target,
        later.style == install.style,
        cache::is_lookup(
            later,
            cache::entry_dir(later.style, cache_home, later.agent_id@),
            Some(stored.target.archive@),
            Some(true),
            lookup,
        ),
    ensures
        lookup matches CacheLookup::Fresh(payload) && payload.executable_path@ == stored.command(
            cache::entry_dir(stored.style, cache_home, stored.agent_id@),
        ).program,
{
    cache::stored_payload_is_reused(stored, later, cache_home, lookup);
}

/// npm is run to install exactly the package that the registry names, character for character, its
/// version and all; it is also the package that the outcome reports.
pub proof fn npm_installs_the_named_package(
    install: PackageInstall,
    agent_id: Seq<char>,
    package: Seq<char>,
)
    requires
        installs_with_npm(install, agent_id, package),
    ensures
        install.program@ == "npm"@,
        install.args@.len() == 3,
        install.args@[0]@ == "i"@,
        install.args@[1]@ == "-g"@,
        install.args@[install.args@.len() - 1]@ == package,
        install.package@ == package,
        install.agent_id@ == agent_id,
        install.method == InstallMethod::Npx,
        install.subject@ == "npm package "@ + package,
{
    let args = text::texts(install.args@);
    text::texts_hold_every_string(install.args@, Seq::empty());
    assert(args[0] == "i"@ && args[1] == "-g"@ && args[2] == package);
}

/// uv is run to install exactly the package that the registry names, character for character, its
/// version and all; it is also the package that the outcome reports.
pub proof fn uv_installs_the_named_package(
    install: PackageInstall,
    agent_id: Seq<char>,
    package: Seq<char>,
)
    requires
        installs_with_uv(install, agent_id, package),
    ensures
        install.program@ == "uv"@,
        install.args@.len() == 3,
        install.args@[0]@ == "tool"@,
        install.args@[1]@ == "install"@,
        install.args@[install.args@.len() - 1]@ == package,
        install.package@ == package,
        install.agent_id@ == agent_id,
        install.method == InstallMethod::Uvx,
        install.subject@ == "uv package "@ + package,
{
    let args = text::texts(install.args@);
    text::texts_hold_every_string(install.args@, Seq::empty());
    assert(args[0] == "tool"@ && args[1] == "install"@ && args[2] == package);
}

/// An agent is installed from its binary for the platform if it has one, else with npm if it has a
/// package for `npx`, else with uv if it has a package for `uvx`. What the package manager is run
/// with ends in the package that the registry names. On a platform that is not known the packages
/// are used, and an agent is refused that has binaries and no packages.
pub proof fn agents_are_installed_from_their_best_distribution(
    agent: RegistryAgent,
    os: Seq<char>,
    arch: Seq<char>,
    plan: Result<InstallPlan, InstallError>,
)
    requires
        is_install_plan(agent, os, arch, plan),
    ensures
        ({
            let from = agent.distribution;
            let known = registry::platform_of(os, arch);
            if from.binary is Some && known is Some && from.binary->0.target(known->0) is Some {
                plan matches Ok(InstallPlan::Binary(install)) && *install.agent == agent
                    && *install.target == from.binary->0.target(known->0)->0 && install.style == (
                if os == "windows"@ {
                    PathStyle::Windows
                } else {
                    PathStyle::Unix
                })
            } else if from.npx is Some {
                plan matches Ok(InstallPlan::Package(install)) && install.program@ == "npm"@
                    && install.args@[install.args@.len() - 1]@ == from.npx->0.package@
                    && install.package@ == from.npx->0.package@ && install.agent_id@ == agent.id@
            } else if from.uvx is Some {
                plan matches Ok(InstallPlan::Package(install)) && install.program@ == "uv"@
                    && install.args@[install.args@.len() - 1]@ == from.uvx->0.package@
                    && install.package@ == from.uvx->0.package@ && install.agent_id@ == agent.id@
            } else if from.binary is Some && known is None {
                plan matches Err(
                    InstallError::Registry(RegistryError::UnsupportedPlatform { os: o, arch: a }),
                ) && o@ == os && a@ == arch
            } else {
                plan matches Err(InstallError::NotInstallable { agent_id }) && agent_id@
                    == agent.id@
            }
        }),
{
    match plan {
        Ok(InstallPlan::Package(install)) => match agent.distribution.npx {
            Some(npx) => {
                npm_installs_the_named_package(install, agent.id@, npx.package@);
            },
            None => {
                uv_installs_the_named_package(
                    install,
                    agent.id@,
                    agent.distribution.uvx->0.package@,
                );
            },
        },
        _ => {},
    }
}

/// What a failed package manager said is its standard error where that holds anything but white
/// space, else its standard output, without the white space around it and otherwise unchanged:
/// `bounds` tells from where to where it reaches.
pub proof fn failures_say_what_the_manager_said(stdout: Seq<char>, stderr: Seq<char>) -> (bounds: (
    int,
    int,
))
    ensures
        ({
            let (from, to) = bounds;
            let said = if exists|i: int|
                0 <= i < stderr.len() && !text::is_white(#[trigger] stderr[i]) {
                stderr
            } else {
                stdout
            };
            &&& 0 <= from <= to <= said.len()
            &&& failure_detail(stdout, stderr) == said.subrange(from, to)
            &&& forall|i: int| 0 <= i < from ==> text::is_white(#[trigger] said[i])
            &&& forall|i: int| to <= i < said.len() ==> text::is_white(#[trigger] said[i])
            &&& from < to ==> !text::is_white(said[from]) && !text::is_white(said[to - 1])
        }),
{
    let (from, to) = text::trim_takes_off_white_space_only(stderr);
    if exists|i: int| 0 <= i < stderr.len() && !text::is_white(#[trigger] stderr[i]) {
        let i = choose|i: int| 0 <= i < stderr.len() && !text::is_white(#[trigger] stderr[i]);
        assert(from <= i < to);
        (from, to)
    } else {
        if from < to {
            assert(text::is_white(stderr[from]));
        }
        text::trim_takes_off_white_space_only(stdout)
    }
}

/// On a Unix system binaries are installed to `.local/bin` below the home directory, and on Windows
/// to `.acp-agent\bin`. Left out are home directories that take no separator behind them, and those
/// that are verbatim or become so, of which other laws speak.
pub proof fn binaries_are_installed_below_the_home_directory(home: Seq<u8>)
    requires
        home.len() > 0,
    ensures
        home.last() != path::SLASH ==> install_dir(PathStyle::Unix, home) == home + encode_utf8(
            "/.local/bin"@,
        ),
        home.last() == path::SLASH ==> install_dir(PathStyle::Unix, home) == home + encode_utf8(
            ".local/bin"@,
        ),
        home.last() != path::SLASH && home.last() != path::BACKSLASH && home.len() > 3
            && !path::is_verbatim(PathStyle::Windows, home) ==> install_dir(
            PathStyle::Windows,
            home,
        ) == home + encode_utf8("\\.acp-agent\\bin"@),
{
    reveal_strlit("/.local/bin");
    reveal_strlit(".local/bin");
    reveal_strlit(".local");
    reveal_strlit("bin");
    reveal_strlit("\\.acp-agent\\bin");
    reveal_strlit(".acp-agent");
    assert(is_ascii_chars("/.local/bin"@) && is_ascii_chars(".local/bin"@));
    assert(is_ascii_chars(".local"@) && is_ascii_chars("bin"@));
    assert(is_ascii_chars("\\.acp-agent\\bin"@) && is_ascii_chars(".acp-agent"@));
    is_ascii_chars_encode_utf8("/.local/bin"@);
    is_ascii_chars_encode_utf8(".local/bin"@);
    is_ascii_chars_encode_utf8(".local"@);
    is_ascii_chars_encode_utf8("bin"@);
    is_ascii_chars_encode_utf8("\\.acp-agent\\bin"@);
    is_ascii_chars_encode_utf8(".acp-agent"@);
    let unix = path::joined(PathStyle::Unix, home, encode_utf8(".local"@));
    path::relative_paths_follow_their_directory(PathStyle::Unix, home, encode_utf8(".local"@));
    path::relative_paths_follow_their_directory(PathStyle::Unix, unix, encode_utf8("bin"@));
    if home.last() == path::SLASH {
        assert(install_dir(PathStyle::Unix, home) =~= home + encode_utf8(".local/bin"@));
    } else {
        assert(install_dir(PathStyle::Unix, home) =~= home + encode_utf8("/.local/bin"@));
    }
    if home.last() != path::SLASH && home.last() != path::BACKSLASH && home.len() > 3
        && !path::is_verbatim(PathStyle::Windows, home) {
        let windows = path::joined(PathStyle::Windows, home, encode_utf8(".acp-agent"@));
        path::relative_paths_follow_their_directory(
            PathStyle::Windows,
            home,
            encode_utf8(".acp-agent"@),
        );
        assert(!path::is_verbatim(PathStyle::Windows, windows)) by {
            assert(windows[0] == home[0] && windows[1] == home[1] && windows[2] == home[2]
                && windows[3] == home[3]);
        }
        path::relative_paths_follow_their_directory(
            PathStyle::Windows,
            windows,
            encode_utf8("bin"@),
        );
        assert(install_dir(PathStyle::Windows, home) =~= home + encode_utf8("\\.acp-agent\\bin"@));
    }
}

/// The line about an installed agent shows the agent's identifier, and the path of its executable
/// or the package it was installed from, in full.
pub proof fn outcomes_show_what_was_installed(outcome: InstallOutcome)
    ensures
        match outcome {
            InstallOutcome::Binary { agent_id, path } => text::occurs_in(outcome.text(), agent_id@)
                && text::occurs_in(outcome.text(), path::lossy_text(path@)),
            InstallOutcome::PackageManager { agent_id, method, package } => text::occurs_in(
                outcome.text(),
                agent_id@,
            ) && text::occurs_in(outcome.text(), package@),
        },
{
    match outcome {
        InstallOutcome::Binary { agent_id, path } => {
            let shown = path::lossy_text(path@);
            let front = "Installed "@ + agent_id@ + " to "@;
            text::lemma_part_occurs("Installed "@, agent_id@, " to "@);
            text::lemma_occurs_further(Seq::empty(), front, shown, agent_id@);
            text::lemma_ending_occurs(front, shown);
        },
        InstallOutcome::PackageManager { agent_id, method, package } => {
            let front = "Installed "@ + agent_id@ + " via "@;
            let named = front + method.label() + ": "@;
            text::lemma_part_occurs("Installed "@, agent_id@, " via "@);
            text::lemma_occurs_further(Seq::empty(), front, method.label(), agent_id@);
            text::lemma_occurs_further(Seq::empty(), front + method.label(), ": "@, agent_id@);
            text::lemma_occurs_further(Seq::empty(), named, package@, agent_id@);
            text::lemma_ending_occurs(named, package@);
        },
    }
}

/// What an error is about is shown in its description in full, and so is what a failed package
/// manager said.
pub proof fn errors_show_what_they_are_about(error: InstallError)
    ensures
        match error {
            InstallError::Registry(cause) => error.text() == cause.text(),
            InstallError::NotInstallable { agent_id } => text::occurs_in(error.text(), agent_id@),
            InstallError::Archive(cause) => error.text() == cause.text() && error.cause_text()
                == cause.cause_text(),
            InstallError::Store(cause) => error.text() == cause.text() && error.cause_text()
                == cause.cause_text(),
            InstallError::CreateDirectory { path, cause } => text::occurs_in(error.text(), path@)
                && error.cause_text() == Some(cause@),
            InstallError::InvalidCommandPath { cmd } => text::occurs_in(error.text(), cmd@),
            InstallError::Copy { source, destination, cause } => text::occurs_in(
                error.text(),
                source@,
            ) && text::occurs_in(error.text(), destination@) && error.cause_text() == Some(cause@),
            InstallError::MakeExecutable { cause } => error.text() == cause@,
            InstallError::StartCommand { program, cause } => text::occurs_in(error.text(), program@)
                && error.cause_text() == Some(cause@),
            InstallError::CommandFailed { program, subject, detail } => text::occurs_in(
                error.text(),
                program@,
            ) && text::occurs_in(error.text(), subject@) && text::occurs_in(error.text(), detail@),
            InstallError::NoHomeDirectory => true,
        },
{
    let none = Seq::<char>::empty();
    match error {
        InstallError::NotInstallable { agent_id } => {
            text::lemma_part_occurs(
                "agent \""@,
                agent_id@,
                "\" does not have an installable distribution"@,
            );
        },
        InstallError::CreateDirectory { path, cause } => {
            text::lemma_ending_occurs("failed to create "@, path@);
        },
        InstallError::InvalidCommandPath { cmd } => {
            text::lemma_ending_occurs("invalid binary command path: "@, cmd@);
        },
        InstallError::Copy { source, destination, cause } => {
            let front = "failed to copy "@ + source@ + " to "@;
            text::lemma_part_occurs("failed to copy "@, source@, " to "@);
            text::lemma_occurs_further(none, front, destination@, source@);
            text::lemma_ending_occurs(front, destination@);
        },
        InstallError::StartCommand { program, cause } => {
            text::lemma_ending_occurs("failed to run "@, program@);
        },
        InstallError::CommandFailed { program, subject, detail } => {
            let front = "failed to run "@ + program@ + " for "@;
            let named = front + subject@;
            text::lemma_part_occurs("failed to run "@, program@, " for "@);
            text::lemma_occurs_further(none, front, subject@, program@);
            text::lemma_ending_occurs(front, subject@);
            if detail@.len() == 0 {
                assert(detail@ =~= none);
                text::lemma_ending_occurs(named, none);
                assert(named + none =~= named);
            } else {
                text::lemma_occurs_further(none, named, ": "@, program@);
                text::lemma_occurs_further(none, named, ": "@, subject@);
                text::lemma_occurs_further(none, named + ": "@, detail@, program@);
                text::lemma_occurs_further(none, named + ": "@, detail@, subject@);
                text::lemma_ending_occurs(named + ": "@, detail@);
            }
        },
        _ => {},
    }
}

/// What an installation keeps in the cache is the archive of its own agent for the platform.
pub proof fn installations_cache_their_own_archive(install: BinaryInstall, job: BinaryJob)
    requires
        install.is_job(job),
    ensures
        job.agent_id@ == install.agent.id@,
        *job.target == *install.target,
        job.style == install.style,
        job.user_args@.len() == 0,
{
}

} // verus!
