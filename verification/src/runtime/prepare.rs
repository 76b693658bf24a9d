//! Turning a registry entry and the user's arguments into a command to run.
use vstd::prelude::*;
use vstd::string::*;
use vstd::utf8::*;

use crate::environment::Environment;
use crate::path;
use crate::path::{os_text, OsText, PathStyle};
use crate::registry;
use crate::registry::{BinaryTarget, CommandArgs, Platform, RegistryAgent, RegistryError};
use crate::runtime::binary::BinaryJob;
use crate::runtime::cache::CacheStep;
use crate::runtime::distribution;
use crate::runtime::distribution::{choose_source, PreparedBinary, Source, UnknownPlatform};
use crate::runtime::error::RuntimeError;
use crate::text;

verus! {

/// What a command is, apart from how it is stored.
pub struct CommandModel {
    /// The executable.
    pub program: Seq<u8>,
    /// Its arguments.
    pub args: Seq<Seq<char>>,
    /// The environment overrides, in the order in which they are set.
    pub env: Seq<(Seq<char>, Seq<char>)>,
    /// The working directory, where it differs from the caller's.
    pub current_dir: Option<Seq<u8>>,
}

/// A concrete instruction set for invoking an agent binary or a package runner.
#[derive(Debug, Clone, PartialEq, Eq)]
pub struct CommandSpec {
    /// The executable (or package runner) that will be launched.
    pub program: OsText,
    /// The arguments, those of the user last.
    pub args: Vec<String>,
    /// Environment overrides that are injected into the child process.
    pub env: Vec<(String, String)>,
    /// The working directory of the child process (set for binaries).
    pub current_dir: Option<OsText>,
}

impl View for CommandSpec {
    type V = CommandModel;

    open spec fn view(&self) -> CommandModel {
        CommandModel {
            program: self.program@,
            args: text::texts(self.args@),
            env: text::text_pairs(self.env@),
            current_dir: path::os_option(self.current_dir),
        }
    }
}

/// A command that is ready to be launched.
#[derive(Debug, Clone, PartialEq, Eq)]
pub struct PreparedCommand {
    /// What to launch.
    pub spec: CommandSpec,
}

/// The arguments that a registry entry asks for.
pub open spec fn args_of(args: Option<CommandArgs>) -> Seq<Seq<char>> {
    match args {
        Some(list) => text::texts(list@),
        None => Seq::empty(),
    }
}

/// The environment overrides that a registry entry asks for, in the order of their names.
pub open spec fn env_of(env: Option<Environment>) -> Seq<(Seq<char>, Seq<char>)> {
    match env {
        Some(pairs) => pairs@,
        None => Seq::empty(),
    }
}

/// The command that starts a package: the runner with the package's name, then the arguments of
/// the registry, then those of the user.
pub open spec fn package_command(
    program: Seq<char>,
    package: Seq<char>,
    args: Option<CommandArgs>,
    env: Option<Environment>,
    user_args: Seq<Seq<char>>,
) -> CommandModel {
    CommandModel {
        program: encode_utf8(program),
        args: seq![package] + args_of(args) + user_args,
        env: env_of(env),
        current_dir: None,
    }
}

/// The command that starts a binary: the executable, in the directory it was extracted to, with
/// the arguments of the registry and then those of the user.
pub open spec fn binary_command(
    executable_path: Seq<u8>,
    extracted_dir: Seq<u8>,
    target: BinaryTarget,
    user_args: Seq<Seq<char>>,
) -> CommandModel {
    CommandModel {
        program: executable_path,
        args: args_of(target.args) + user_args,
        env: env_of(target.env),
        current_dir: Some(extracted_dir),
    }
}

/// Appends the strings of `more` to `list`.
fn append_args(list: &mut Vec<String>, more: &[String])
    ensures
        text::texts(final(list)@) == text::texts(old(list)@) + text::texts(more@),
{
    let ghost before = list@;
    let mut i: usize = 0;
    assert(text::texts(list@) =~= text::texts(before) + text::texts(more@).take(0));
    while i < more.len()
        invariant
            i <= more.len(),
            text::texts(list@) =~= text::texts(before) + text::texts(more@).take(i as int),
        decreases more.len() - i,
    {
        let ghost held = list@;
        list.push(more[i].clone());
        assert(text::texts(list@) =~= text::texts(held).push(more@[i as int]@));
        i += 1;
    }
    assert(text::texts(more@).take(i as int) =~= text::texts(more@));
}

/// The environment overrides that a registry entry asks for, in the order of their names.
pub fn clone_env_pairs(env: &Option<Environment>) -> (pairs: Vec<(String, String)>)
    ensures
        text::text_pairs(pairs@) == env_of(*env),
{
    let mut out: Vec<(String, String)> = Vec::new();
    match env {
        Some(overrides) => {
            let pairs = overrides.pairs();
            let mut i: usize = 0;
            while i < pairs.len()
                invariant
                    i <= pairs.len(),
                    out@ =~= pairs@.take(i as int),
                decreases pairs.len() - i,
            {
                out.push((pairs[i].0.clone(), pairs[i].1.clone()));
                i += 1;
            }
            assert(out@ =~= pairs@);
            out
        },
        None => {
            assert(text::text_pairs(out@) =~= Seq::empty());
            out
        },
    }
}

/// The command that starts `package` with the runner `program`.
pub fn package_command_spec(
    program: &str,
    package: &str,
    args: &Option<CommandArgs>,
    env: &Option<Environment>,
    user_args: &[String],
) -> (spec: CommandSpec)
    ensures
        spec@ == package_command(program@, package@, *args, *env, text::texts(user_args@)),
        spec.program@ == encode_utf8(program@),
        spec.args@.len() == 1 + (if *args is Some {
            args->0@.len()
        } else {
            0
        }) + user_args@.len(),
        spec.args@[0]@ == package@,
        *args matches Some(list) ==> forall|i: int|
            0 <= i < list@.len() ==> (#[trigger] spec.args@[1 + i])@ == list@[i]@,
        forall|i: int|
            0 <= i < user_args@.len() ==> (#[trigger] spec.args@[spec.args@.len()
                - user_args@.len() + i])@ == user_args@[i]@,
{
    let mut command_args: Vec<String> = Vec::new();
    command_args.push(package.to_owned());
    assert(text::texts(command_args@) =~= seq![package@]);
    match args {
        Some(list) => {
            append_args(&mut command_args, list.as_slice());
        },
        None => {},
    }
    assert(text::texts(command_args@) =~= seq![package@] + args_of(*args));
    append_args(&mut command_args, user_args);
    let spec = CommandSpec {
        program: os_text(program),
        args: command_args,
        env: clone_env_pairs(env),
        current_dir: None,
    };
    proof {
        package_commands_hold_every_argument(
            program@,
            package@,
            *args,
            *env,
            user_args@,
            spec,
        );
    }
    spec
}

/// The command that starts the executable of a binary distribution.
pub fn binary_command_spec(
    executable_path: OsText,
    extracted_dir: OsText,
    target: &BinaryTarget,
    user_args: &[String],
) -> (spec: CommandSpec)
    ensures
        spec@ == binary_command(
            executable_path@,
            extracted_dir@,
            *target,
            text::texts(user_args@),
        ),
        spec.program@ == executable_path@,
        spec.args@.len() == (if target.args is Some {
            target.args->0@.len()
        } else {
            0
        }) + user_args@.len(),
        target.args matches Some(list) ==> forall|i: int|
            0 <= i < list@.len() ==> (#[trigger] spec.args@[i])@ == list@[i]@,
        forall|i: int|
            0 <= i < user_args@.len() ==> (#[trigger] spec.args@[spec.args@.len()
                - user_args@.len() + i])@ == user_args@[i]@,
{
    let ghost path = executable_path@;
    let ghost dir = extracted_dir@;
    let mut args: Vec<String> = Vec::new();
    assert(text::texts(args@) =~= Seq::empty());
    match &target.args {
        Some(list) => {
            append_args(&mut args, list.as_slice());
        },
        None => {},
    }
    assert(text::texts(args@) =~= args_of(target.args));
    append_args(&mut args, user_args);
    let spec = CommandSpec {
        program: executable_path,
        args,
        env: clone_env_pairs(&target.env),
        current_dir: Some(extracted_dir),
    };
    proof {
        binary_commands_hold_every_argument(path, dir, *target, user_args@, spec);
    }
    spec
}

/// How far a command can be prepared without touching the file system or the network.
pub enum Preparation<'a> {
    /// The command is ready.
    Ready(PreparedCommand),
    /// The cache has to be consulted for the binary.
    Binary {
        /// The platform that the binary is for.
        platform: Platform,
        /// What to look for in the cache.
        cache: CacheStep<'a>,
    },
}

/// Whether `prepared` is how far the command of `agent` can be prepared on the operating system
/// `os` and the architecture `arch`.
pub open spec fn is_prepared(
    agent: RegistryAgent,
    user_args: Seq<Seq<char>>,
    os: Seq<char>,
    arch: Seq<char>,
    prepared: Result<Preparation, RuntimeError>,
) -> bool {
    match distribution::preference(
        agent.distribution,
        registry::platform_of(os, arch),
        UnknownPlatform::UsePackages,
    ) {
        distribution::Preference::Unsupported => prepared matches Err(
            RuntimeError::Registry(RegistryError::UnsupportedPlatform { os: o, arch: a }),
        ) && o@ == os && a@ == arch,
        distribution::Preference::Binary(wanted) => prepared matches Ok(
            Preparation::Binary { platform, cache },
        ) && cache.job.agent_id@ == agent.id@ && *cache.job.target == wanted && text::texts(
            cache.job.user_args@,
        ) == user_args && cache.job.style == path::style_of(os) && registry::platform_of(os, arch)
            == Some(platform),
        distribution::Preference::Npx(package) => prepared matches Ok(Preparation::Ready(command))
            && command.spec@ == package_command(
            "npx"@,
            package.package@,
            package.args,
            package.env,
            user_args,
        ),
        distribution::Preference::Uvx(package) => prepared matches Ok(Preparation::Ready(command))
            && command.spec@ == package_command(
            "uvx"@,
            package.package@,
            package.args,
            package.env,
            user_args,
        ),
        distribution::Preference::Nothing => prepared matches Err(
            RuntimeError::NoRunnableDistribution { agent_id },
        ) && agent_id@ == agent.id@,
    }
}

/// Prepares the command for an agent on the operating system `os` and the architecture `arch`.
///
/// A binary for the platform comes first, a package for `npx` second and one for `uvx` last. A
/// binary is looked for in the cache, see [`crate::runtime::cache`]; once it is available, see
/// [`prepare_binary_command`].
pub fn prepare_agent_command<'a>(
    agent: &'a RegistryAgent,
    user_args: &'a [String],
    os: &str,
    arch: &str,
) -> (prepared: Result<Preparation<'a>, RuntimeError>)
    ensures
        is_prepared(*agent, text::texts(user_args@), os@, arch@, prepared),
{
    match choose_source(&agent.distribution, os, arch, UnknownPlatform::UsePackages) {
        Err(error) => Err(RuntimeError::Registry(error)),
        Ok(Source::Binary { platform, target }) => Ok(
            Preparation::Binary {
                platform,
                cache: CacheStep {
                    job: BinaryJob {
                        agent_id: agent.id.as_str(),
                        target,
                        user_args,
                        style: PathStyle::of(os),
                    },
                },
            },
        ),
        Ok(Source::Npx(npx)) => Ok(
            Preparation::Ready(
                PreparedCommand {
                    spec: package_command_spec(
                        "npx",
                        npx.package.as_str(),
                        &npx.args,
                        &npx.env,
                        user_args,
                    ),
                },
            ),
        ),
        Ok(Source::Uvx(uvx)) => Ok(
            Preparation::Ready(
                PreparedCommand {
                    spec: package_command_spec(
                        "uvx",
                        uvx.package.as_str(),
                        &uvx.args,
                        &uvx.env,
                        user_args,
                    ),
                },
            ),
        ),
        Ok(Source::Nothing) => Err(
            RuntimeError::NoRunnableDistribution { agent_id: agent.id.clone() },
        ),
    }
}

/// Prepares the command for a binary once its archive was made available, or reports why it was
/// not.
pub fn prepare_binary_command(
    target: &BinaryTarget,
    available: Result<PreparedBinary, RuntimeError>,
    user_args: &[String],
) -> (prepared: Result<PreparedCommand, RuntimeError>)
    ensures
        match (available, prepared) {
            (Ok(binary), Ok(command)) => command.spec@ == binary_command(
                binary.executable_path@,
                binary.extracted_dir@,
                *target,
                text::texts(user_args@),
            ),
            (Err(cause), Err(error)) => error == cause,
            _ => false,
        },
{
    match available {
        Ok(binary) => Ok(
            PreparedCommand {
                spec: binary_command_spec(
                    binary.executable_path,
                    binary.extracted_dir,
                    target,
                    user_args,
                ),
            },
        ),
        Err(error) => Err(error),
    }
}

// ---------------------------------------------------------------------------
// Laws
// ---------------------------------------------------------------------------

/// The user's arguments come last and unchanged, whichever way the agent is started.
pub proof fn user_args_come_last(
    program: Seq<char>,
    package: Seq<char>,
    args: Option<CommandArgs>,
    env: Option<Environment>,
    executable_path: Seq<u8>,
    extracted_dir: Seq<u8>,
    target: BinaryTarget,
    user_args: Seq<Seq<char>>,
)
    ensures
        ({
            let command = package_command(program, package, args, env, user_args);
            command.args.skip(command.args.len() - user_args.len()) == user_args
        }),
        ({
            let command = binary_command(executable_path, extracted_dir, target, user_args);
            command.args.skip(command.args.len() - user_args.len()) == user_args
        }),
{
    let packaged = package_command(program, package, args, env, user_args);
    assert(packaged.args.skip(packaged.args.len() - user_args.len()) =~= user_args);
    let binary = binary_command(executable_path, extracted_dir, target, user_args);
    assert(binary.args.skip(binary.args.len() - user_args.len()) =~= user_args);
}

/// The command of a package is the runner with the package's name first, then every argument of the
/// registry entry, then every argument of the user, each unchanged and in its order. It sets every
/// environment override of the registry entry and no other, and stays in the caller's directory.
pub proof fn package_commands_hold_every_argument(
    program: Seq<char>,
    package: Seq<char>,
    args: Option<CommandArgs>,
    env: Option<Environment>,
    user_args: Seq<String>,
    spec: CommandSpec,
)
    requires
        spec@ == package_command(program, package, args, env, text::texts(user_args)),
    ensures
        spec.program@ == encode_utf8(program),
        spec.current_dir is None,
        spec.args@.len() == 1 + (if args is Some {
            args->0@.len()
        } else {
            0
        }) + user_args.len(),
        spec.args@[0]@ == package,
        args matches Some(list) ==> forall|i: int|
            0 <= i < list@.len() ==> (#[trigger] spec.args@[1 + i])@ == list@[i]@,
        forall|i: int|
            0 <= i < user_args.len() ==> (#[trigger] spec.args@[spec.args@.len() - user_args.len()
                + i])@ == user_args[i]@,
        env is None ==> spec.env@.len() == 0,
        env matches Some(overrides) ==> spec.env@.len() == overrides@.len() && forall|i: int|
            0 <= i < overrides@.len() ==> (#[trigger] spec.env@[i]).0@ == overrides@[i].0
                && spec.env@[i].1@ == overrides@[i].1,
{
    text::texts_hold_every_string(spec.args@, spec.env@);
    text::texts_hold_every_string(user_args, spec.env@);
    assert(spec@.args == text::texts(spec.args@));
    assert(spec@.env == text::text_pairs(spec.env@));
    let listed = args_of(args);
    let model = seq![package] + listed + text::texts(user_args);
    assert(text::texts(spec.args@) == model);
    assert(text::texts(spec.args@)[0] == model[0]);
    match args {
        Some(list) => {
            text::texts_hold_every_string(list@, spec.env@);
            assert forall|i: int| 0 <= i < list@.len() implies (#[trigger] spec.args@[1 + i])@
                == list@[i]@ by {
                assert(text::texts(spec.args@)[1 + i] == model[1 + i]);
                assert(model[1 + i] == listed[i]);
            }
        },
        None => {},
    }
    assert forall|i: int| 0 <= i < user_args.len() implies (#[trigger] spec.args@[spec.args@.len()
        - user_args.len() + i])@ == user_args[i]@ by {
        let at = spec.args@.len() - user_args.len() + i;
        assert(text::texts(spec.args@)[at] == model[at]);
        assert(model[at] == text::texts(user_args)[i]);
    }
    match env {
        Some(overrides) => {
            assert forall|i: int| 0 <= i < overrides@.len() implies (#[trigger] spec.env@[i]).0@
                == overrides@[i].0 && spec.env@[i].1@ == overrides@[i].1 by {
                assert(text::text_pairs(spec.env@)[i] == overrides@[i]);
            }
        },
        None => {},
    }
}

/// The command of a binary is its executable, in the directory it was extracted to, with every
/// argument of the registry entry and then every argument of the user, each unchanged and in its
/// order. It sets every environment override of the registry entry and no other.
pub proof fn binary_commands_hold_every_argument(
    executable_path: Seq<u8>,
    extracted_dir: Seq<u8>,
    target: BinaryTarget,
    user_args: Seq<String>,
    spec: CommandSpec,
)
    requires
        spec@ == binary_command(executable_path, extracted_dir, target, text::texts(user_args)),
    ensures
        spec.program@ == executable_path,
        spec.current_dir matches Some(dir) && dir@ == extracted_dir,
        spec.args@.len() == (if target.args is Some {
            target.args->0@.len()
        } else {
            0
        }) + user_args.len(),
        target.args matches Some(list) ==> forall|i: int|
            0 <= i < list@.len() ==> (#[trigger] spec.args@[i])@ == list@[i]@,
        forall|i: int|
            0 <= i < user_args.len() ==> (#[trigger] spec.args@[spec.args@.len() - user_args.len()
                + i])@ == user_args[i]@,
        target.env is None ==> spec.env@.len() == 0,
        target.env matches Some(overrides) ==> spec.env@.len() == overrides@.len() && forall|i: int|
            0 <= i < overrides@.len() ==> (#[trigger] spec.env@[i]).0@ == overrides@[i].0
                && spec.env@[i].1@ == overrides@[i].1,
{
    text::texts_hold_every_string(spec.args@, spec.env@);
    text::texts_hold_every_string(user_args, spec.env@);
    assert(spec@.args == text::texts(spec.args@));
    assert(spec@.env == text::text_pairs(spec.env@));
    assert(spec@.current_dir == Some(extracted_dir));
    let listed = args_of(target.args);
    let model = listed + text::texts(user_args);
    assert(text::texts(spec.args@) == model);
    match target.args {
        Some(list) => {
            text::texts_hold_every_string(list@, spec.env@);
            assert forall|i: int| 0 <= i < list@.len() implies (#[trigger] spec.args@[i])@
                == list@[i]@ by {
                assert(text::texts(spec.args@)[i] == model[i]);
                assert(model[i] == listed[i]);
            }
        },
        None => {},
    }
    assert forall|i: int| 0 <= i < user_args.len() implies (#[trigger] spec.args@[spec.args@.len()
        - user_args.len() + i])@ == user_args[i]@ by {
        let at = spec.args@.len() - user_args.len() + i;
        assert(text::texts(spec.args@)[at] == model[at]);
        assert(model[at] == text::texts(user_args)[i]);
    }
    match target.env {
        Some(overrides) => {
            assert forall|i: int| 0 <= i < overrides@.len() implies (#[trigger] spec.env@[i]).0@
                == overrides@[i].0 && spec.env@[i].1@ == overrides@[i].1 by {
                assert(text::text_pairs(spec.env@)[i] == overrides@[i]);
            }
        },
        None => {},
    }
}

/// An agent is started from its binary for the platform if it has one, else with `npx` if it has a
/// package for it, else with `uvx` if it has a package for that. On a platform that is not known
/// its packages are used, and it is refused if it has binaries and no packages.
pub proof fn agents_start_from_their_best_distribution(
    agent: RegistryAgent,
    user_args: Seq<String>,
    os: Seq<char>,
    arch: Seq<char>,
    prepared: Result<Preparation, RuntimeError>,
)
    requires
        is_prepared(agent, text::texts(user_args), os, arch, prepared),
    ensures
        ({
            let from = agent.distribution;
            let known = registry::platform_of(os, arch);
            if from.binary is Some && known is Some && from.binary->0.target(known->0) is Some {
                prepared matches Ok(Preparation::Binary { platform, cache }) && {
                    &&& platform == known->0
                    &&& *cache.job.target == from.binary->0.target(known->0)->0
                    &&& cache.job.agent_id@ == agent.id@
                    &&& cache.job.style == (if os == "windows"@ {
                        PathStyle::Windows
                    } else {
                        PathStyle::Unix
                    })
                    &&& cache.job.user_args@.len() == user_args.len()
                    &&& forall|i: int|
                        0 <= i < user_args.len() ==> (#[trigger] cache.job.user_args@[i])@
                            == user_args[i]@
                }
            } else if from.npx is Some {
                prepared matches Ok(Preparation::Ready(command)) && command.spec@
                    == package_command(
                    "npx"@,
                    from.npx->0.package@,
                    from.npx->0.args,
                    from.npx->0.env,
                    text::texts(user_args),
                ) && command.spec.args@[0]@ == from.npx->0.package@
            } else if from.uvx is Some {
                prepared matches Ok(Preparation::Ready(command)) && command.spec@
                    == package_command(
                    "uvx"@,
                    from.uvx->0.package@,
                    from.uvx->0.args,
                    from.uvx->0.env,
                    text::texts(user_args),
                ) && command.spec.args@[0]@ == from.uvx->0.package@
            } else if from.binary is Some && known is None {
                prepared matches Err(
                    RuntimeError::Registry(RegistryError::UnsupportedPlatform { os: o, arch: a }),
                ) && o@ == os && a@ == arch
            } else {
                prepared matches Err(RuntimeError::NoRunnableDistribution { agent_id }) && agent_id@
                    == agent.id@
            }
        }),
{
    match prepared {
        Ok(Preparation::Ready(command)) => {
            let (runner, package) = match agent.distribution.npx {
                Some(npx) => ("npx"@, npx),
                None => ("uvx"@, agent.distribution.uvx->0),
            };
            package_commands_hold_every_argument(
                runner,
                package.package@,
                package.args,
                package.env,
                user_args,
                command.spec,
            );
        },
        Ok(Preparation::Binary { platform, cache }) => {
            let given = cache.job.user_args@;
            text::texts_hold_every_string(user_args, Seq::empty());
            text::texts_hold_every_string(given, Seq::empty());
            assert forall|i: int| 0 <= i < user_args.len() implies (#[trigger] given[i])@
                == user_args[i]@ by {
                assert(text::texts(given)[i] == text::texts(user_args)[i]);
            }
        },
        Err(error) => {},
    }
}

} // verus!
