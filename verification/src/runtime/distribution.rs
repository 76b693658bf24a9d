//! Which of an agent's distributions is used, and how a binary archive is made available.
use vstd::prelude::*;
use vstd::string::*;
use vstd::utf8::*;

use crate::path;
use crate::path::{join_text, OsText, PathStyle};
use crate::registry;
use crate::registry::{
    AgentDistribution, BinaryTarget, NpxDistribution, PackageDistribution, Platform, RegistryError,
    UvxDistribution,
};
use crate::text;
use crate::text::{chars_of, string_of};

verus! {

/// What is preferred among an agent's distributions.
pub enum Preference {
    /// There are binaries, but this platform has no name among them.
    Unsupported,
    /// The binary for the platform.
    Binary(BinaryTarget),
    /// The package for `npx`.
    Npx(PackageDistribution),
    /// The package for `uvx`.
    Uvx(PackageDistribution),
    /// Nothing can be used.
    Nothing,
}

/// What an agent with binaries comes to on a platform that has no name.
#[derive(Debug, Clone, Copy, PartialEq, Eq, Structural)]
pub enum UnknownPlatform {
    /// It is refused, whatever packages there are.
    Refuse,
    /// Its packages are used, and it is refused if it has none.
    UsePackages,
}

/// What is preferred on a platform: its binary, else the package for `npx`, else the package for
/// `uvx`. Where there are binaries and the platform is not a known one, `unknown` decides.
pub open spec fn preference(
    distribution: AgentDistribution,
    platform: Option<Platform>,
    unknown: UnknownPlatform,
) -> Preference {
    match (distribution.binary, platform) {
        (Some(binary), None) => if unknown == UnknownPlatform::Refuse || (distribution.npx is None
            && distribution.uvx is None) {
            Preference::Unsupported
        } else {
            package_preference(distribution)
        },
        (Some(binary), Some(known)) => match binary.target(known) {
            Some(target) => Preference::Binary(target),
            None => package_preference(distribution),
        },
        (None, _) => package_preference(distribution),
    }
}

/// What is preferred where no binary can be used.
pub open spec fn package_preference(distribution: AgentDistribution) -> Preference {
    match (distribution.npx, distribution.uvx) {
        (Some(npx), _) => Preference::Npx(npx),
        (None, Some(uvx)) => Preference::Uvx(uvx),
        (None, None) => Preference::Nothing,
    }
}

/// The distribution that is used.
pub enum Source<'a> {
    /// The binary for the platform.
    Binary {
        /// The platform.
        platform: Platform,
        /// The archive.
        target: &'a BinaryTarget,
    },
    /// The package for `npx`.
    Npx(&'a NpxDistribution),
    /// The package for `uvx`.
    Uvx(&'a UvxDistribution),
    /// Nothing can be used.
    Nothing,
}

/// The distribution that is used on the operating system `os` and the architecture `arch`.
pub fn choose_source<'a>(
    distribution: &'a AgentDistribution,
    os: &str,
    arch: &str,
    unknown: UnknownPlatform,
) -> (source: Result<Source<'a>, RegistryError>)
    ensures
        match preference(*distribution, registry::platform_of(os@, arch@), unknown) {
            Preference::Unsupported => source matches Err(
                RegistryError::UnsupportedPlatform { os: o, arch: a },
            ) && o@ == os@ && a@ == arch@,
            Preference::Binary(wanted) => source matches Ok(Source::Binary { platform, target })
                && *target == wanted && registry::platform_of(os@, arch@) == Some(platform),
            Preference::Npx(package) => source matches Ok(Source::Npx(npx)) && *npx == package,
            Preference::Uvx(package) => source matches Ok(Source::Uvx(uvx)) && *uvx == package,
            Preference::Nothing => source matches Ok(Source::Nothing),
        },
{
    match &distribution.binary {
        Some(binary) => {
            match Platform::current(os, arch) {
                Ok(platform) => {
                    match binary.for_platform(platform) {
                        Some(target) => {
                            return Ok(Source::Binary { platform, target });
                        },
                        None => {},
                    }
                },
                Err(error) => {
                    let packaged = distribution.npx.is_some() || distribution.uvx.is_some();
                    if unknown == UnknownPlatform::Refuse || !packaged {
                        return Err(error);
                    }
                },
            }
        },
        None => {},
    }
    match &distribution.npx {
        Some(npx) => {
            return Ok(Source::Npx(npx));
        },
        None => {},
    }
    match &distribution.uvx {
        Some(uvx) => Ok(Source::Uvx(uvx)),
        None => Ok(Source::Nothing),
    }
}

/// A binary whose archive was extracted.
#[derive(Debug, Clone, PartialEq, Eq)]
pub struct PreparedBinary {
    /// The executable.
    pub executable_path: OsText,
    /// The directory that the archive was extracted to.
    pub extracted_dir: OsText,
}

/// A command without the `./` that it may start with.
pub open spec fn plain_command(cmd: Seq<char>) -> Seq<char> {
    if cmd.len() >= 2 && cmd[0] == '.' && cmd[1] == '/' {
        cmd.skip(2)
    } else {
        cmd
    }
}

/// Where a command of an archive lies that was extracted to `base`.
pub open spec fn command_path(style: PathStyle, base: Seq<u8>, cmd: Seq<char>) -> Seq<u8> {
    path::joined(style, base, encode_utf8(plain_command(cmd)))
}

/// Where the command `cmd` of an archive lies that was extracted to `base`.
pub fn resolve_cmd_path(style: PathStyle, base: &[u8], cmd: &str) -> (resolved: OsText)
    ensures
        resolved@ == command_path(style, base@, cmd@),
{
    let chars = chars_of(cmd);
    if chars.len() >= 2 && chars[0] == '.' && chars[1] == '/' {
        let mut rest: Vec<char> = Vec::new();
        let mut i: usize = 2;
        while i < chars.len()
            invariant
                2 <= i <= chars.len(),
                rest@ =~= chars@.subrange(2, i as int),
            decreases chars.len() - i,
        {
            rest.push(chars[i]);
            i += 1;
        }
        assert(rest@ =~= cmd@.skip(2));
        join_text(style, base, string_of(rest.as_slice()).as_str())
    } else {
        join_text(style, base, cmd)
    }
}

// ---------------------------------------------------------------------------
// Laws
// ---------------------------------------------------------------------------

/// A binary for the platform is preferred to every package.
pub proof fn binary_is_preferred(
    distribution: AgentDistribution,
    platform: Platform,
    unknown: UnknownPlatform,
)
    requires
        distribution.binary is Some,
        distribution.binary->0.target(platform) is Some,
    ensures
        preference(distribution, Some(platform), unknown) == Preference::Binary(
            distribution.binary->0.target(platform)->0,
        ),
{
}

/// Without a binary for the platform, `npx` is preferred to `uvx`, and a package that exists is
/// used.
pub proof fn packages_are_the_fallback(
    distribution: AgentDistribution,
    platform: Platform,
    unknown: UnknownPlatform,
)
    requires
        distribution.binary is Some ==> distribution.binary->0.target(platform) is None,
    ensures
        preference(distribution, Some(platform), unknown) == package_preference(distribution),
        distribution.npx is Some ==> package_preference(distribution) == Preference::Npx(
            distribution.npx->0,
        ),
        distribution.npx is None && distribution.uvx is Some ==> package_preference(distribution)
            == Preference::Uvx(distribution.uvx->0),
        distribution.npx is None && distribution.uvx is None ==> package_preference(distribution)
            == Preference::Nothing,
{
}

/// Where packages are used on unknown platforms, an agent that has one can be used on every
/// platform, known or not, whether or not it has binaries.
pub proof fn packages_are_the_fallback_on_unknown_platforms(
    distribution: AgentDistribution,
    platform: Option<Platform>,
)
    requires
        distribution.npx is Some || distribution.uvx is Some,
    ensures
        preference(distribution, None, UnknownPlatform::UsePackages) == package_preference(
            distribution,
        ),
        !(preference(distribution, platform, UnknownPlatform::UsePackages) is Unsupported),
        !(preference(distribution, platform, UnknownPlatform::UsePackages) is Nothing),
{
}

/// An agent of a valid registry that has no binaries can be used on every platform, known or
/// not.
pub proof fn packages_need_no_platform(
    distribution: AgentDistribution,
    platform: Option<Platform>,
    unknown: UnknownPlatform,
)
    requires
        distribution.has_source(),
        distribution.binary is None,
    ensures
        preference(distribution, platform, unknown) is Npx || preference(
            distribution,
            platform,
            unknown,
        ) is Uvx,
{
}

/// On a platform that is not known, an agent with binaries is refused where that is asked for, and
/// otherwise if it has no packages; an agent without binaries is never refused for the platform.
pub proof fn unknown_platforms_are_refused(
    distribution: AgentDistribution,
    unknown: UnknownPlatform,
)
    ensures
        preference(distribution, None, unknown) is Unsupported <==> distribution.binary is Some && (
        unknown == UnknownPlatform::Refuse || (distribution.npx is None && distribution.uvx
            is None)),
        forall|platform: Platform|
            !(#[trigger] preference(distribution, Some(platform), unknown) is Unsupported),
{
}

/// Every distribution of an agent is used where nothing better is there, and nothing else is ever
/// used: the binary for the platform, else the package for `npx`, else the one for `uvx`.
pub proof fn best_distribution_is_used(
    distribution: AgentDistribution,
    platform: Platform,
    unknown: UnknownPlatform,
)
    ensures
        preference(distribution, Some(platform), unknown) == if distribution.binary is Some
            && distribution.binary->0.target(platform) is Some {
            Preference::Binary(distribution.binary->0.target(platform)->0)
        } else if distribution.npx is Some {
            Preference::Npx(distribution.npx->0)
        } else if distribution.uvx is Some {
            Preference::Uvx(distribution.uvx->0)
        } else {
            Preference::Nothing
        },
{
}

/// A command with `./` in front is the same as without it, and nothing else is taken off a command.
pub proof fn leading_dot_slash_does_not_count(cmd: Seq<char>)
    ensures
        plain_command(seq!['.', '/'] + cmd) == cmd,
        !(cmd.len() >= 2 && cmd[0] == '.' && cmd[1] == '/') ==> plain_command(cmd) == cmd,
{
    assert((seq!['.', '/'] + cmd).skip(2) =~= cmd);
}

/// A command that is a relative path lies where that path leads from the directory that the archive
/// was extracted to, with or without `./` in front; one that begins at the root lies where it says.
pub proof fn commands_lie_in_the_extracted_archive(dir: Seq<u8>, cmd: Seq<char>)
    requires
        dir.len() > 0,
        dir.last() != path::SLASH,
        encode_utf8(cmd).len() > 0,
    ensures
        encode_utf8(cmd)[0] != path::SLASH ==> command_path(
            PathStyle::Unix,
            dir,
            seq!['.', '/'] + cmd,
        ) == dir + seq![path::SLASH] + encode_utf8(cmd),
        encode_utf8(cmd)[0] != path::SLASH && !(cmd[0] == '.' && cmd.len() >= 2 && cmd[1] == '/')
            ==> command_path(PathStyle::Unix, dir, cmd) == dir + seq![path::SLASH] + encode_utf8(
            cmd,
        ),
        encode_utf8(cmd)[0] == path::SLASH && !(cmd[0] == '.' && cmd.len() >= 2 && cmd[1] == '/')
            ==> command_path(PathStyle::Unix, dir, cmd) == encode_utf8(cmd),
{
    leading_dot_slash_does_not_count(cmd);
    let bytes = encode_utf8(cmd);
    if bytes[0] == path::SLASH {
        path::rooted_paths_stand_for_themselves(dir, bytes);
    } else {
        path::relative_paths_follow_their_directory(PathStyle::Unix, dir, bytes);
    }
}

} // verus!
