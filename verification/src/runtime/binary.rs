//! The steps that make the archive of a binary distribution ready to run.
//!
//! Each step names one operation on the file system or the network. The operation's outcome leads
//! to the next step or to a failure; the last step leads to the command.
use vstd::prelude::*;
use vstd::string::*;
use vstd::utf8::*;

use crate::path;
use crate::path::{join_text, shown, OsText, PathStyle};
use crate::registry::BinaryTarget;
use crate::runtime::distribution;
use crate::runtime::distribution::resolve_cmd_path;
use crate::runtime::prepare;
use crate::runtime::prepare::{binary_command_spec, CommandSpec};
use crate::text;

verus! {

/// Why an archive could not be made ready to run, with the cause that the failed operation gave.
#[derive(Debug, Clone, PartialEq, Eq)]
pub enum PreparationFailure<E> {
    /// The task that creates the temporary directory failed.
    TempDirTask(E),
    /// The temporary directory could not be created.
    TempDir(E),
    /// The archive could not be downloaded.
    Download(E),
    /// The directory for the archive's contents could not be created.
    CreateDirectory {
        /// The directory.
        path: String,
        /// What went wrong.
        cause: E,
    },
    /// The archive could not be extracted.
    Extract(E),
    /// The archive does not hold the command that it should.
    MissingExecutable {
        /// The address of the archive.
        archive: String,
        /// The command.
        cmd: String,
        /// Where the command was looked for.
        path: String,
    },
    /// The command could not be made executable.
    MarkExecutable {
        /// The command's path.
        path: String,
        /// What went wrong.
        cause: E,
    },
}

/// What is to be run: a binary distribution of an agent with the user's arguments.
#[derive(Clone, Copy)]
pub struct BinaryJob<'a> {
    /// The agent's identifier.
    pub agent_id: &'a str,
    /// The archive and its command.
    pub target: &'a BinaryTarget,
    /// The user's arguments.
    pub user_args: &'a [String],
    /// How paths are written.
    pub style: PathStyle,
}

/// The directory for the archive's contents inside the directory `dir`.
pub open spec fn extraction_dir(style: PathStyle, dir: Seq<u8>) -> Seq<u8> {
    path::joined(style, dir, encode_utf8("extracted"@))
}

impl<'a> BinaryJob<'a> {
    /// Where the executable lies once the archive was extracted inside `dir`.
    pub open spec fn executable_path(self, dir: Seq<u8>) -> Seq<u8> {
        distribution::command_path(self.style, extraction_dir(self.style, dir), self.target.cmd@)
    }

    /// The command that runs the executable once the archive was extracted inside `dir`.
    pub open spec fn command(self, dir: Seq<u8>) -> prepare::CommandModel {
        prepare::binary_command(
            self.executable_path(dir),
            extraction_dir(self.style, dir),
            *self.target,
            text::texts(self.user_args@),
        )
    }

    /// The directory for the archive's contents inside `dir`.
    pub fn extraction_dir_in(&self, dir: &[u8]) -> (extracted: OsText)
        ensures
            extracted@ == extraction_dir(self.style, dir@),
    {
        join_text(self.style, dir, "extracted")
    }

    /// Where the executable lies once the archive was extracted inside `dir`.
    pub fn executable_in(&self, dir: &[u8]) -> (path: OsText)
        ensures
            path@ == self.executable_path(dir@),
    {
        let extracted = self.extraction_dir_in(dir);
        resolve_cmd_path(self.style, extracted.as_slice(), self.target.cmd.as_str())
    }

    /// The command that runs the executable once the archive was extracted inside `dir`.
    pub fn command_in(&self, dir: &[u8]) -> (spec: CommandSpec)
        ensures
            spec@ == self.command(dir@),
    {
        binary_command_spec(
            self.executable_in(dir),
            self.extraction_dir_in(dir),
            self.target,
            self.user_args,
        )
    }
}

/// A temporary directory has to be created.
pub struct TempDirStep<'a> {
    /// What is to be run.
    pub job: BinaryJob<'a>,
}

/// The archive has to be downloaded to the temporary directory.
pub struct DownloadStep<'a> {
    /// What is to be run; its target's `archive` is the address to download from.
    pub job: BinaryJob<'a>,
    /// The temporary directory.
    pub temp_dir: OsText,
}

/// The directory for the archive's contents has to be created.
pub struct DirectoryStep<'a> {
    /// What is to be run.
    pub job: BinaryJob<'a>,
    /// The temporary directory.
    pub temp_dir: OsText,
    /// The downloaded archive.
    pub archive_path: OsText,
}

/// The archive has to be extracted.
pub struct ExtractStep<'a> {
    /// What is to be run.
    pub job: BinaryJob<'a>,
    /// The temporary directory.
    pub temp_dir: OsText,
    /// The downloaded archive.
    pub archive_path: OsText,
}

/// It has to be determined whether the executable is there.
pub struct InspectStep<'a> {
    /// What is to be run.
    pub job: BinaryJob<'a>,
    /// The temporary directory.
    pub temp_dir: OsText,
}

/// The executable has to be given permission to run.
pub struct PermissionStep<'a> {
    /// What is to be run.
    pub job: BinaryJob<'a>,
    /// The temporary directory.
    pub temp_dir: OsText,
}

/// The executable can be run.
pub struct ReadyBinary<'a> {
    /// What is to be run.
    pub job: BinaryJob<'a>,
    /// The command that runs it.
    pub spec: CommandSpec,
    /// The temporary directory, which has to exist for as long as the command runs.
    pub temp_dir: OsText,
}

impl<'a> TempDirStep<'a> {
    /// Takes what came of creating the temporary directory: the failure of the task that creates
    /// it, or else the failure to create it, or else its path.
    pub fn created<E>(self, outcome: Result<Result<OsText, E>, E>) -> (next: Result<
        DownloadStep<'a>,
        PreparationFailure<E>,
    >)
        ensures
            match (outcome, next) {
                (Ok(Ok(dir)), Ok(step)) => step == (DownloadStep { job: self.job, temp_dir: dir }),
                (Ok(Err(cause)), Err(failure)) => failure == PreparationFailure::TempDir(cause),
                (Err(cause), Err(failure)) => failure == PreparationFailure::TempDirTask(cause),
                _ => false,
            },
    {
        match outcome {
            Ok(Ok(temp_dir)) => Ok(DownloadStep { job: self.job, temp_dir }),
            Ok(Err(cause)) => Err(PreparationFailure::TempDir(cause)),
            Err(cause) => Err(PreparationFailure::TempDirTask(cause)),
        }
    }
}

impl<'a> DownloadStep<'a> {
    /// Takes what came of the download: the path of the downloaded archive, or the failure.
    pub fn downloaded<E>(self, outcome: Result<OsText, E>) -> (next: Result<
        DirectoryStep<'a>,
        PreparationFailure<E>,
    >)
        ensures
            match (outcome, next) {
                (Ok(path), Ok(step)) => step == (DirectoryStep {
                    job: self.job,
                    temp_dir: self.temp_dir,
                    archive_path: path,
                }),
                (Err(cause), Err(failure)) => failure == PreparationFailure::Download(cause),
                _ => false,
            },
    {
        match outcome {
            Ok(archive_path) => Ok(
                DirectoryStep { job: self.job, temp_dir: self.temp_dir, archive_path },
            ),
            Err(cause) => Err(PreparationFailure::Download(cause)),
        }
    }
}

impl<'a> DirectoryStep<'a> {
    /// The directory to create.
    pub fn directory(&self) -> (dir: OsText)
        ensures
            dir@ == extraction_dir(self.job.style, self.temp_dir@),
    {
        self.job.extraction_dir_in(self.temp_dir.as_slice())
    }

    /// Takes what came of creating the directory.
    pub fn created<E>(self, outcome: Result<(), E>) -> (next: Result<
        ExtractStep<'a>,
        PreparationFailure<E>,
    >)
        ensures
            match (outcome, next) {
                (Ok(()), Ok(step)) => step == (ExtractStep {
                    job: self.job,
                    temp_dir: self.temp_dir,
                    archive_path: self.archive_path,
                }),
                (Err(e), Err(PreparationFailure::CreateDirectory { path, cause })) => cause == e
                    && path::is_shown(extraction_dir(self.job.style, self.temp_dir@), path@),
                _ => false,
            },
    {
        match outcome {
            Ok(()) => Ok(
                ExtractStep {
                    job: self.job,
                    temp_dir: self.temp_dir,
                    archive_path: self.archive_path,
                },
            ),
            Err(cause) => Err(
                PreparationFailure::CreateDirectory {
                    path: shown(self.directory().as_slice()),
                    cause,
                },
            ),
        }
    }
}

impl<'a> ExtractStep<'a> {
    /// The directory to extract to.
    pub fn directory(&self) -> (dir: OsText)
        ensures
            dir@ == extraction_dir(self.job.style, self.temp_dir@),
    {
        self.job.extraction_dir_in(self.temp_dir.as_slice())
    }

    /// Takes what came of the extraction.
    pub fn extracted<E>(self, outcome: Result<(), E>) -> (next: Result<
        InspectStep<'a>,
        PreparationFailure<E>,
    >)
        ensures
            match (outcome, next) {
                (Ok(()), Ok(step)) => step == (InspectStep {
                    job: self.job,
                    temp_dir: self.temp_dir,
                }),
                (Err(cause), Err(failure)) => failure == PreparationFailure::Extract(cause),
                _ => false,
            },
    {
        match outcome {
            Ok(()) => Ok(InspectStep { job: self.job, temp_dir: self.temp_dir }),
            Err(cause) => Err(PreparationFailure::Extract(cause)),
        }
    }
}

impl<'a> InspectStep<'a> {
    /// Where the executable should be.
    pub fn executable(&self) -> (path: OsText)
        ensures
            path@ == self.job.executable_path(self.temp_dir@),
    {
        self.job.executable_in(self.temp_dir.as_slice())
    }

    /// Takes whether a plain file is where the executable should be; `None` if that could not be
    /// determined.
    pub fn inspected<E>(self, is_file: Option<bool>) -> (next: Result<
        PermissionStep<'a>,
        PreparationFailure<E>,
    >)
        ensures
            match next {
                Ok(step) => is_file == Some(true) && step == (PermissionStep {
                    job: self.job,
                    temp_dir: self.temp_dir,
                }),
                Err(failure) => {
                    &&& is_file != Some(true)
                    &&& failure matches PreparationFailure::MissingExecutable { archive, cmd, path }
                        && archive@ == self.job.target.archive@ && cmd@ == self.job.target.cmd@
                        && path::is_shown(self.job.executable_path(self.temp_dir@), path@)
                },
            },
    {
        match is_file {
            Some(true) => Ok(PermissionStep { job: self.job, temp_dir: self.temp_dir }),
            _ => Err(
                PreparationFailure::MissingExecutable {
                    archive: self.job.target.archive.clone(),
                    cmd: self.job.target.cmd.clone(),
                    path: shown(self.executable().as_slice()),
                },
            ),
        }
    }
}

impl<'a> PermissionStep<'a> {
    /// The executable.
    pub fn executable(&self) -> (path: OsText)
        ensures
            path@ == self.job.executable_path(self.temp_dir@),
    {
        self.job.executable_in(self.temp_dir.as_slice())
    }

    /// Takes what came of giving the executable permission to run.
    pub fn marked<E>(self, outcome: Result<(), E>) -> (next: Result<
        ReadyBinary<'a>,
        PreparationFailure<E>,
    >)
        ensures
            match (outcome, next) {
                (Ok(()), Ok(ready)) => ready.job == self.job && ready.spec@ == self.job.command(
                    self.temp_dir@,
                ) && ready.temp_dir == self.temp_dir,
                (Err(e), Err(PreparationFailure::MarkExecutable { path, cause })) => cause == e
                    && path::is_shown(self.job.executable_path(self.temp_dir@), path@),
                _ => false,
            },
    {
        match outcome {
            Ok(()) => {
                let spec = self.job.command_in(self.temp_dir.as_slice());
                Ok(ReadyBinary { job: self.job, spec, temp_dir: self.temp_dir })
            },
            Err(cause) => Err(
                PreparationFailure::MarkExecutable { path: shown(self.executable().as_slice()), cause },
            ),
        }
    }
}

// ---------------------------------------------------------------------------
// Laws
// ---------------------------------------------------------------------------

/// A binary that went through every step runs from the directory that its own archive was
/// extracted to, and keeps the temporary directory that holds it.
pub proof fn ready_binary_runs_where_it_was_extracted(
    start: TempDirStep,
    temp_dir: OsText,
    archive_path: OsText,
    download: DownloadStep,
    directory: DirectoryStep,
    extract: ExtractStep,
    inspect: InspectStep,
    permission: PermissionStep,
    ready: ReadyBinary,
)
    requires
        download == (DownloadStep { job: start.job, temp_dir }),
        directory == (DirectoryStep {
            job: download.job,
            temp_dir: download.temp_dir,
            archive_path,
        }),
        extract == (ExtractStep {
            job: directory.job,
            temp_dir: directory.temp_dir,
            archive_path: directory.archive_path,
        }),
        inspect == (InspectStep { job: extract.job, temp_dir: extract.temp_dir }),
        permission == (PermissionStep { job: inspect.job, temp_dir: inspect.temp_dir }),
        ready.job == permission.job,
        ready.spec@ == permission.job.command(permission.temp_dir@),
        ready.temp_dir == permission.temp_dir,
    ensures
        ready.temp_dir@ == temp_dir@,
        ready.spec@.current_dir == Some(extraction_dir(start.job.style, temp_dir@)),
        ready.spec@.program == start.job.executable_path(temp_dir@),
        ready.spec@ == start.job.command(temp_dir@),
{
}

/// The path of a command without a drive, share or root of its own starts with the directory that
/// the archive was extracted to. A verbatim directory is left out, since `..` leads out of it.
pub proof fn relative_command_is_resolved_from_extraction_dir(job: BinaryJob, temp_dir: Seq<u8>)
    requires
        !path::is_anchored(job.style, encode_utf8(distribution::plain_command(job.target.cmd@))),
        !path::is_verbatim(job.style, extraction_dir(job.style, temp_dir)),
    ensures
        extraction_dir(job.style, temp_dir).is_prefix_of(job.executable_path(temp_dir)),
{
    let dir = extraction_dir(job.style, temp_dir);
    assert(job.executable_path(temp_dir).take(dir.len() as int) =~= dir);
}

/// On a Unix system an archive is extracted to `extracted` in its directory, and the executable
/// lies there where the registry says, with or without `./` in front of it.
pub proof fn executables_lie_where_the_registry_says(job: BinaryJob, dir: Seq<u8>, cmd: Seq<char>)
    requires
        job.style == PathStyle::Unix,
        dir.len() > 0,
        dir.last() != path::SLASH,
        cmd.len() > 0,
        encode_utf8(cmd).len() > 0,
        encode_utf8(cmd)[0] != path::SLASH,
        job.target.cmd@ == seq!['.', '/'] + cmd || (job.target.cmd@ == cmd && !(cmd.len() >= 2
            && cmd[0] == '.' && cmd[1] == '/')),
    ensures
        extraction_dir(PathStyle::Unix, dir) == dir + encode_utf8("/extracted"@),
        job.executable_path(dir) == dir + encode_utf8("/extracted/"@) + encode_utf8(cmd),
{
    reveal_strlit("/extracted/");
    reveal_strlit("/extracted");
    reveal_strlit("extracted");
    assert(is_ascii_chars("/extracted/"@) && is_ascii_chars("/extracted"@));
    assert(is_ascii_chars("extracted"@));
    is_ascii_chars_encode_utf8("/extracted/"@);
    is_ascii_chars_encode_utf8("/extracted"@);
    is_ascii_chars_encode_utf8("extracted"@);
    let name = encode_utf8("extracted"@);
    assert(name[0] == 'e' as u8) by {
        assert("extracted"@[0] == 'e');
    }
    path::relative_paths_follow_their_directory(PathStyle::Unix, dir, name);
    let extracted = extraction_dir(PathStyle::Unix, dir);
    assert(extracted =~= dir + encode_utf8("/extracted"@)) by {
        let whole = encode_utf8("/extracted"@);
        assert("/extracted"@ =~= seq!['/'] + "extracted"@);
        assert forall|i: int| 0 <= i < whole.len() implies whole[i] == (seq![path::SLASH]
            + name)[i] by {
            assert(whole[i] == "/extracted"@[i] as u8);
            if i > 0 {
                assert(name[i - 1] == "extracted"@[i - 1] as u8);
            }
        }
        assert(whole =~= seq![path::SLASH] + name);
    }
    assert(extracted.last() == name.last());
    assert(name.last() == 'd' as u8) by {
        assert("extracted"@[8] == 'd');
        assert(name[8] == "extracted"@[8] as u8);
    }
    distribution::commands_lie_in_the_extracted_archive(extracted, cmd);
    assert(encode_utf8("/extracted/"@) =~= encode_utf8("/extracted"@) + seq![path::SLASH]) by {
        let longer = encode_utf8("/extracted/"@);
        let whole = encode_utf8("/extracted"@);
        assert("/extracted/"@ =~= "/extracted"@ + seq!['/']);
        assert forall|i: int| 0 <= i < longer.len() implies longer[i] == (whole
            + seq![path::SLASH])[i] by {
            assert(longer[i] == "/extracted/"@[i] as u8);
            if i < whole.len() {
                assert(whole[i] == "/extracted"@[i] as u8);
            }
        }
    }
    assert(job.executable_path(dir) =~= dir + encode_utf8("/extracted/"@) + encode_utf8(cmd));
}

/// A job is run as its executable, in the directory of the archive's contents, with every argument
/// of the registry and then every argument of the user.
pub proof fn jobs_run_with_every_argument(job: BinaryJob, dir: Seq<u8>, spec: CommandSpec)
    requires
        spec@ == job.command(dir),
    ensures
        spec.program@ == job.executable_path(dir),
        spec.current_dir matches Some(current) && current@ == extraction_dir(job.style, dir),
        spec.args@.len() == (if job.target.args is Some {
            job.target.args->0@.len()
        } else {
            0
        }) + job.user_args@.len(),
        job.target.args matches Some(list) ==> forall|i: int|
            0 <= i < list@.len() ==> (#[trigger] spec.args@[i])@ == list@[i]@,
        forall|i: int|
            0 <= i < job.user_args@.len() ==> (#[trigger] spec.args@[spec.args@.len()
                - job.user_args@.len() + i])@ == job.user_args@[i]@,
{
    prepare::binary_commands_hold_every_argument(
        job.executable_path(dir),
        extraction_dir(job.style, dir),
        *job.target,
        job.user_args@,
        spec,
    );
}

} // verus!
