//! The local cache of extracted archives.
//!
//! Each agent has an entry: a directory with the extracted archive of the agent and a record of the
//! address that the archive came from. An entry is used for as long as the registry names the same
//! address. Otherwise the archive is made ready in a temporary directory, which then becomes the
//! entry as a whole.
use vstd::prelude::*;
use vstd::string::*;
use vstd::utf8::*;

use crate::bytes::copy_bytes;
use crate::path;
use crate::path::{join_text, shown, OsText, PathStyle};
use crate::runtime::binary;
use crate::runtime::binary::{BinaryJob, ReadyBinary, TempDirStep};
use crate::runtime::distribution::PreparedBinary;
use crate::runtime::prepare;
use crate::runtime::prepare::{binary_command_spec, CommandSpec};
use crate::text;
use crate::text::{chars_of, same_text, string_of};

verus! {

// ---------------------------------------------------------------------------
// Entries
// ---------------------------------------------------------------------------

/// A character of an agent's identifier as it stands in the name of the agent's entry.
pub open spec fn entry_char(c: char) -> char {
    if 'a' <= c <= 'z' || 'A' <= c <= 'Z' || '0' <= c <= '9' || c == '-' {
        c
    } else {
        '_'
    }
}

/// The name of an agent's entry.
pub open spec fn entry_name(agent_id: Seq<char>) -> Seq<char> {
    "agent-"@ + agent_id.map_values(|c: char| entry_char(c))
}

/// The directory of this program inside the user's cache directory `cache_home`.
pub open spec fn cache_root(style: PathStyle, cache_home: Seq<u8>) -> Seq<u8> {
    path::joined(style, cache_home, encode_utf8("acp-agent"@))
}

/// The entry of an agent.
pub open spec fn entry_dir(
    style: PathStyle,
    cache_home: Seq<u8>,
    agent_id: Seq<char>,
) -> Seq<u8> {
    path::joined(style, cache_root(style, cache_home), encode_utf8(entry_name(agent_id)))
}

/// Where the record stands in the directory `dir`.
pub open spec fn record_path(style: PathStyle, dir: Seq<u8>) -> Seq<u8> {
    path::joined(style, dir, encode_utf8("archive-address"@))
}

/// The directory of this program inside the user's cache directory `cache_home`.
pub fn cache_root_in(style: PathStyle, cache_home: &[u8]) -> (dir: OsText)
    ensures
        dir@ == cache_root(style, cache_home@),
{
    join_text(style, cache_home, "acp-agent")
}

fn entry_dir_in(style: PathStyle, cache_home: &[u8], agent_id: &str) -> (dir: OsText)
    ensures
        dir@ == entry_dir(style, cache_home@, agent_id@),
{
    let chars = chars_of(agent_id);
    let mut safe: Vec<char> = Vec::new();
    let mut i: usize = 0;
    while i < chars.len()
        invariant
            i <= chars.len(),
            safe@ =~= chars@.take(i as int).map_values(|c: char| entry_char(c)),
        decreases chars.len() - i,
    {
        let c: char = chars[i];
        let kept = ('a' <= c && c <= 'z') || ('A' <= c && c <= 'Z') || ('0' <= c && c <= '9') || c
            == '-';
        safe.push(
            if kept {
                c
            } else {
                '_'
            },
        );
        i += 1;
    }
    assert(safe@ =~= agent_id@.map_values(|c: char| entry_char(c)));
    let mut name = "agent-".to_owned();
    name.append(string_of(safe.as_slice()).as_str());
    join_text(style, cache_root_in(style, cache_home).as_slice(), name.as_str())
}

// ---------------------------------------------------------------------------
// Looking up
// ---------------------------------------------------------------------------

/// What the cache holds for an agent.
#[derive(Debug, Clone, PartialEq, Eq)]
pub enum CacheLookup {
    /// The archive that the registry names, extracted.
    Fresh(PreparedBinary),
    /// Nothing that can be run.
    Missing,
    /// Another archive than the one that the registry names.
    Stale,
}

/// Whether `lookup` is what the entry `entry` holds for a job. `record` is the address that stands
/// in the entry's record, if there is one, and `is_file` tells whether a plain file is where the
/// executable should be; `None` if that could not be determined.
pub open spec fn is_lookup(
    job: BinaryJob,
    entry: Seq<u8>,
    record: Option<Seq<char>>,
    is_file: Option<bool>,
    lookup: CacheLookup,
) -> bool {
    match record {
        None => lookup == CacheLookup::Missing,
        Some(address) => if address != job.target.archive@ {
            lookup == CacheLookup::Stale
        } else if is_file != Some(true) {
            lookup == CacheLookup::Missing
        } else {
            lookup matches CacheLookup::Fresh(payload) && payload.executable_path@
                == job.executable_path(entry) && payload.extracted_dir@
                == binary::extraction_dir(job.style, entry)
        },
    }
}

/// A binary in the cache that can be run. Only [`CacheStep::looked_up`] and
/// [`PublishStep::published`] make one.
pub struct CachedBinary {
    spec: CommandSpec,
}

impl CachedBinary {
    /// The command that runs the binary.
    pub closed spec fn command(self) -> prepare::CommandModel {
        self.spec@
    }

    /// The executable.
    pub fn executable(&self) -> (path: OsText)
        ensures
            path@ == self.command().program,
    {
        copy_bytes(self.spec.program.as_slice())
    }

    /// The command that runs the binary.
    pub fn into_spec(self) -> (spec: CommandSpec)
        ensures
            spec@ == self.command(),
    {
        self.spec
    }
}

/// The cache has to be consulted before an archive is downloaded.
pub struct CacheStep<'a> {
    /// What is to be run.
    pub job: BinaryJob<'a>,
}

/// What follows once the cache was consulted.
pub enum CacheNext<'a> {
    /// The binary can be run from the cache.
    Ready(CachedBinary),
    /// The archive has to be made ready, and then stored in the cache.
    Populate(TempDirStep<'a>),
}

impl<'a> CacheStep<'a> {
    /// The entry's record, which has to be read.
    pub fn record(&self, cache_home: &[u8]) -> (path: OsText)
        ensures
            path@ == record_path(
                self.job.style,
                entry_dir(self.job.style, cache_home@, self.job.agent_id@),
            ),
    {
        let entry = entry_dir_in(self.job.style, cache_home, self.job.agent_id);
        join_text(self.job.style, entry.as_slice(), "archive-address")
    }

    /// Where the entry's executable should be.
    pub fn executable(&self, cache_home: &[u8]) -> (path: OsText)
        ensures
            path@ == self.job.executable_path(
                entry_dir(self.job.style, cache_home@, self.job.agent_id@),
            ),
    {
        let entry = entry_dir_in(self.job.style, cache_home, self.job.agent_id);
        self.job.executable_in(entry.as_slice())
    }

    /// Tells what the cache holds, given the address in the entry's record, if there is one, and
    /// whether a plain file is where the executable should be.
    pub fn judge(
        &self,
        cache_home: &[u8],
        record: Option<String>,
        is_file: Option<bool>,
    ) -> (lookup: CacheLookup)
        ensures
            is_lookup(
                self.job,
                entry_dir(self.job.style, cache_home@, self.job.agent_id@),
                text::text_option(record),
                is_file,
                lookup,
            ),
    {
        match record {
            None => CacheLookup::Missing,
            Some(address) => {
                if !same_text(address.as_str(), self.job.target.archive.as_str()) {
                    return CacheLookup::Stale;
                }
                match is_file {
                    Some(true) => {
                        let entry = entry_dir_in(self.job.style, cache_home, self.job.agent_id);
                        CacheLookup::Fresh(
                            PreparedBinary {
                                executable_path: self.job.executable_in(entry.as_slice()),
                                extracted_dir: self.job.extraction_dir_in(entry.as_slice()),
                            },
                        )
                    },
                    _ => CacheLookup::Missing,
                }
            },
        }
    }

    /// Takes what the cache holds. A payload that is fresh is used as it is, and nothing is
    /// downloaded; otherwise the cache is populated.
    pub fn looked_up(self, lookup: CacheLookup) -> (next: CacheNext<'a>)
        ensures
            match lookup {
                CacheLookup::Fresh(payload) => next matches CacheNext::Ready(cached)
                    && cached.command() == prepare::binary_command(
                    payload.executable_path@,
                    payload.extracted_dir@,
                    *self.job.target,
                    text::texts(self.job.user_args@),
                ),
                CacheLookup::Missing => next == CacheNext::Populate(TempDirStep { job: self.job }),
                CacheLookup::Stale => next == CacheNext::Populate(TempDirStep { job: self.job }),
            },
    {
        match lookup {
            CacheLookup::Fresh(payload) => CacheNext::Ready(
                CachedBinary {
                    spec: binary_command_spec(
                        payload.executable_path,
                        payload.extracted_dir,
                        self.job.target,
                        self.job.user_args,
                    ),
                },
            ),
            CacheLookup::Missing => CacheNext::Populate(TempDirStep { job: self.job }),
            CacheLookup::Stale => CacheNext::Populate(TempDirStep { job: self.job }),
        }
    }
}

// ---------------------------------------------------------------------------
// Storing
// ---------------------------------------------------------------------------

/// Why a binary that is ready could not be stored in the cache.
#[derive(Debug, Clone, PartialEq, Eq)]
pub enum StoreError {
    /// The user has no cache directory.
    NoCacheDirectory,
    /// The record could not be written.
    Record {
        /// The record.
        path: String,
        /// What went wrong.
        cause: String,
    },
    /// What the entry held before could not be removed.
    Clear {
        /// The entry.
        path: String,
        /// What went wrong.
        cause: String,
    },
    /// The payload could not be moved to its entry.
    Publish {
        /// The entry.
        path: String,
        /// What went wrong.
        cause: String,
    },
}

impl StoreError {
    /// The text that describes the error.
    pub open spec fn text(self) -> Seq<char> {
        match self {
            StoreError::NoCacheDirectory => "could not determine the current user's cache directory"@,
            StoreError::Record { path, cause } => "failed to write "@ + path@,
            StoreError::Clear { path, cause } => "failed to clear "@ + path@,
            StoreError::Publish { path, cause } => "failed to move the payload to "@ + path@,
        }
    }

    /// Describes the error.
    pub fn message(&self) -> (out: String)
        ensures
            out@ == self.text(),
    {
        match self {
            StoreError::NoCacheDirectory => {
                "could not determine the current user's cache directory".to_owned()
            },
            StoreError::Record { path, cause } => text::labelled("failed to write ", path.as_str()),
            StoreError::Clear { path, cause } => text::labelled("failed to clear ", path.as_str()),
            StoreError::Publish { path, cause } => text::labelled(
                "failed to move the payload to ",
                path.as_str(),
            ),
        }
    }

    /// The description of the failure that lies behind the error, if any.
    pub open spec fn cause_text(self) -> Option<Seq<char>> {
        match self {
            StoreError::NoCacheDirectory => None,
            StoreError::Record { path, cause } => Some(cause@),
            StoreError::Clear { path, cause } => Some(cause@),
            StoreError::Publish { path, cause } => Some(cause@),
        }
    }

    /// The description of the failure that lies behind the error, if any.
    pub fn cause(&self) -> (out: Option<String>)
        ensures
            text::text_option(out) == self.cause_text(),
    {
        match self {
            StoreError::NoCacheDirectory => None,
            StoreError::Record { path, cause } => Some(cause.clone()),
            StoreError::Clear { path, cause } => Some(cause.clone()),
            StoreError::Publish { path, cause } => Some(cause.clone()),
        }
    }
}

/// A binary that is ready but could not be stored in the cache. It can still be run where it is.
pub struct StoreFailure<'a> {
    /// The binary.
    pub ready: ReadyBinary<'a>,
    /// Why it could not be stored.
    pub error: StoreError,
}

/// The record has to be written next to the extracted archive. Only [`ReadyBinary::store_in`] makes
/// such a step.
pub struct RecordStep<'a> {
    ready: ReadyBinary<'a>,
    entry: OsText,
}

/// What the entry held before has to be removed, and the directory around the entry has to exist.
/// Only [`RecordStep::recorded`] makes such a step.
pub struct ClearStep<'a> {
    ready: ReadyBinary<'a>,
    entry: OsText,
}

/// The temporary directory has to become the entry. Only [`ClearStep::cleared`] makes such a step.
pub struct PublishStep<'a> {
    ready: ReadyBinary<'a>,
    entry: OsText,
}

impl<'a> ReadyBinary<'a> {
    /// Begins to store the binary in the cache inside the user's cache directory, if there is one.
    pub fn store_in(self, cache_home: Option<&[u8]>) -> (next: Result<
        RecordStep<'a>,
        StoreFailure<'a>,
    >)
        ensures
            match (cache_home, next) {
                (Some(home), Ok(step)) => step.binary() == self && step.entry_path() == entry_dir(
                    self.job.style,
                    home@,
                    self.job.agent_id@,
                ),
                (None, Err(failure)) => failure == (StoreFailure {
                    ready: self,
                    error: StoreError::NoCacheDirectory,
                }),
                _ => false,
            },
    {
        match cache_home {
            Some(home) => {
                let entry = entry_dir_in(self.job.style, home, self.job.agent_id);
                Ok(RecordStep { ready: self, entry })
            },
            None => Err(StoreFailure { ready: self, error: StoreError::NoCacheDirectory }),
        }
    }
}

impl<'a> RecordStep<'a> {
    /// The binary.
    pub closed spec fn binary(self) -> ReadyBinary<'a> {
        self.ready
    }

    /// The entry.
    pub closed spec fn entry_path(self) -> Seq<u8> {
        self.entry@
    }

    /// The record to write.
    pub fn path(&self) -> (path: OsText)
        ensures
            path@ == record_path(self.binary().job.style, self.binary().temp_dir@),
    {
        join_text(self.ready.job.style, self.ready.temp_dir.as_slice(), "archive-address")
    }

    /// What the record says: the address of the archive.
    pub fn address(&self) -> (address: String)
        ensures
            address@ == self.binary().job.target.archive@,
    {
        self.ready.job.target.archive.clone()
    }

    /// Takes what came of writing the record.
    pub fn recorded(self, outcome: Result<(), String>) -> (next: Result<
        ClearStep<'a>,
        StoreFailure<'a>,
    >)
        ensures
            match (outcome, next) {
                (Ok(()), Ok(step)) => step.binary() == self.binary() && step.entry_path()
                    == self.entry_path(),
                (Err(e), Err(failure)) => {
                    &&& failure.ready == self.binary()
                    &&& failure.error matches StoreError::Record { path, cause } && path::is_shown(
                        record_path(self.binary().job.style, self.binary().temp_dir@),
                        path@,
                    ) && cause == e
                },
                _ => false,
            },
    {
        match outcome {
            Ok(()) => Ok(ClearStep { ready: self.ready, entry: self.entry }),
            Err(cause) => {
                let path = shown(self.path().as_slice());
                Err(StoreFailure { ready: self.ready, error: StoreError::Record { path, cause } })
            },
        }
    }
}

impl<'a> ClearStep<'a> {
    /// The binary.
    pub closed spec fn binary(self) -> ReadyBinary<'a> {
        self.ready
    }

    /// The entry.
    pub closed spec fn entry_path(self) -> Seq<u8> {
        self.entry@
    }

    /// The entry to remove.
    pub fn directory(&self) -> (dir: OsText)
        ensures
            dir@ == self.entry_path(),
    {
        copy_bytes(self.entry.as_slice())
    }

    /// Takes what came of removing what the entry held before.
    pub fn cleared(self, outcome: Result<(), String>) -> (next: Result<
        PublishStep<'a>,
        StoreFailure<'a>,
    >)
        ensures
            match (outcome, next) {
                (Ok(()), Ok(step)) => step.binary() == self.binary() && step.entry_path()
                    == self.entry_path(),
                (Err(e), Err(failure)) => {
                    &&& failure.ready == self.binary()
                    &&& failure.error matches StoreError::Clear { path, cause } && path::is_shown(
                        self.entry_path(),
                        path@,
                    ) && cause == e
                },
                _ => false,
            },
    {
        match outcome {
            Ok(()) => Ok(PublishStep { ready: self.ready, entry: self.entry }),
            Err(cause) => Err(
                StoreFailure {
                    ready: self.ready,
                    error: StoreError::Clear { path: shown(self.entry.as_slice()), cause },
                },
            ),
        }
    }
}

impl<'a> PublishStep<'a> {
    /// The binary.
    pub closed spec fn binary(self) -> ReadyBinary<'a> {
        self.ready
    }

    /// The entry.
    pub closed spec fn entry_path(self) -> Seq<u8> {
        self.entry@
    }

    /// The directory to move.
    pub fn source(&self) -> (dir: OsText)
        ensures
            dir@ == self.binary().temp_dir@,
    {
        copy_bytes(self.ready.temp_dir.as_slice())
    }

    /// Where to move it.
    pub fn destination(&self) -> (dir: OsText)
        ensures
            dir@ == self.entry_path(),
    {
        copy_bytes(self.entry.as_slice())
    }

    /// Takes what came of moving the directory. From then on the binary is run from its entry.
    pub fn published(self, outcome: Result<(), String>) -> (stored: Result<
        CachedBinary,
        StoreFailure<'a>,
    >)
        ensures
            match (outcome, stored) {
                (Ok(()), Ok(cached)) => cached.command() == self.binary().job.command(
                    self.entry_path(),
                ),
                (Err(e), Err(failure)) => {
                    &&& failure.ready == self.binary()
                    &&& failure.error matches StoreError::Publish { path, cause } && path::is_shown(
                        self.entry_path(),
                        path@,
                    ) && cause == e
                },
                _ => false,
            },
    {
        match outcome {
            Ok(()) => Ok(CachedBinary { spec: self.ready.job.command_in(self.entry.as_slice()) }),
            Err(cause) => Err(
                StoreFailure {
                    ready: self.ready,
                    error: StoreError::Publish { path: shown(self.entry.as_slice()), cause },
                },
            ),
        }
    }
}

// ---------------------------------------------------------------------------
// Laws
// ---------------------------------------------------------------------------

/// An entry lies directly in the cache, whatever the agent's identifier.
pub proof fn entries_lie_in_the_cache(
    style: PathStyle,
    cache_home: Seq<u8>,
    agent_id: Seq<char>,
)
    ensures
        path::is_segment(style.usual(), encode_utf8(entry_name(agent_id))),
        entry_dir(style, cache_home, agent_id) == path::entry(
            style,
            cache_root(style, cache_home),
            encode_utf8(entry_name(agent_id)),
        ),
{
    reveal_strlit("agent-");
    reveal_strlit("acp-agent");
    let name = entry_name(agent_id);
    let root = cache_root(style, cache_home);
    let bytes = encode_utf8(name);
    assert forall|i: int| 0 <= i < name.len() implies '\0' <= #[trigger] name[i] <= '\u{7f}'
        && name[i] != '/' && name[i] != '\\' by {
        if i >= 6 {
            assert(name[i] == entry_char(agent_id[i - 6]));
        }
    }
    assert(is_ascii_chars(name));
    is_ascii_chars_encode_utf8(name);
    assert(name[0] == 'a' && name[1] == 'g');
    assert(bytes[0] == 'a' as u8 && bytes[1] == 'g' as u8);
    assert forall|i: int| 0 <= i < bytes.len() implies !style.separates(#[trigger] bytes[i]) by {
        assert(bytes[i] == name[i] as u8);
    }
    let last = encode_utf8("acp-agent"@);
    assert(is_ascii_chars("acp-agent"@));
    is_ascii_chars_encode_utf8("acp-agent"@);
    assert("acp-agent"@[0] == 'a' && "acp-agent"@[1] == 'c' && "acp-agent"@[8] == 't');
    assert(last.len() == 9);
    assert(last[0] == 'a' as u8 && last[1] == 'c' as u8 && last[8] == 't' as u8);
    if path::is_verbatim(style, cache_home) {
        path::verbatim_stays_verbatim(style, cache_home, last);
    } else {
        assert(root.len() >= 9 && root.last() == last[8]);
    }
    path::joined_segment_is_an_entry(style, root, bytes);
}

/// What was stored for an agent is found fresh by every later job for the same archive and command,
/// and is what then runs, with that job's own arguments: the archive is not downloaded again.
pub proof fn stored_payload_is_reused(
    stored: BinaryJob,
    later: BinaryJob,
    cache_home: Seq<u8>,
    lookup: CacheLookup,
)
    requires
        later.agent_id@ == stored.agent_id@,
        later.style == stored.style,
        later.target.archive@ == stored.target.archive@,
        later.target.cmd@ == stored.target.cmd@,
        is_lookup(
            later,
            entry_dir(later.style, cache_home, later.agent_id@),
            Some(stored.target.archive@),
            Some(true),
            lookup,
        ),
    ensures
        lookup matches CacheLookup::Fresh(payload) && {
            let entry = entry_dir(stored.style, cache_home, stored.agent_id@);
            &&& payload.executable_path@ == stored.command(entry).program
            &&& prepare::binary_command(
                payload.executable_path@,
                payload.extracted_dir@,
                *later.target,
                text::texts(later.user_args@),
            ) == later.command(entry)
        },
{
}

/// A payload is stale exactly if its record names another archive than the registry does.
pub proof fn other_archives_are_stale(
    job: BinaryJob,
    entry: Seq<u8>,
    record: Option<Seq<char>>,
    is_file: Option<bool>,
    lookup: CacheLookup,
)
    requires
        is_lookup(job, entry, record, is_file, lookup),
    ensures
        lookup is Stale <==> (record is Some && record->0 != job.target.archive@),
        lookup is Fresh <==> record == Some(job.target.archive@) && is_file == Some(true),
{
}

/// The name of an agent's entry is `agent-` and the agent's identifier, of which ASCII letters,
/// digits and `-` are kept, and every other character is replaced by `_`.
pub proof fn entries_are_named_after_their_agent(agent_id: Seq<char>)
    ensures
        entry_name(agent_id).len() == 6 + agent_id.len(),
        entry_name(agent_id).take(6) == "agent-"@,
        forall|i: int|
            0 <= i < agent_id.len() ==> #[trigger] entry_name(agent_id)[6 + i] == if 'a'
                <= agent_id[i] <= 'z' || 'A' <= agent_id[i] <= 'Z' || '0' <= agent_id[i] <= '9'
                || agent_id[i] == '-' {
                agent_id[i]
            } else {
                '_'
            },
{
    reveal_strlit("agent-");
    assert(entry_name(agent_id).take(6) =~= "agent-"@);
}

/// A payload is used exactly if its record names the archive that the registry names and its
/// executable is there. What is used is the executable of the entry and its directory.
pub proof fn fresh_payloads_are_those_of_the_entry(
    job: BinaryJob,
    entry: Seq<u8>,
    record: Option<Seq<char>>,
    is_file: Option<bool>,
    lookup: CacheLookup,
)
    requires
        is_lookup(job, entry, record, is_file, lookup),
    ensures
        lookup is Fresh <==> record == Some(job.target.archive@) && is_file == Some(true),
        lookup is Missing <==> record is None || (record == Some(job.target.archive@) && is_file
            != Some(true)),
        lookup matches CacheLookup::Fresh(payload) ==> payload.executable_path@
            == job.executable_path(entry) && payload.extracted_dir@ == binary::extraction_dir(
            job.style,
            entry,
        ),
{
}

/// The cache of this program lies in `acp-agent` in the user's cache directory, each agent's entry
/// in a directory of its own there, and the record in that. Stated for Unix systems.
pub proof fn entries_lie_below_the_cache_directory(cache_home: Seq<u8>, agent_id: Seq<char>)
    requires
        cache_home.len() > 0,
        cache_home.last() != path::SLASH,
    ensures
        ({
            let slash = seq![path::SLASH];
            let entry = cache_home + slash + encode_utf8("acp-agent"@) + slash + encode_utf8(
                entry_name(agent_id),
            );
            &&& entry_dir(PathStyle::Unix, cache_home, agent_id) == entry
            &&& record_path(PathStyle::Unix, entry) == entry + slash + encode_utf8(
                "archive-address"@,
            )
        }),
{
    reveal_strlit("acp-agent");
    reveal_strlit("archive-address");
    reveal_strlit("agent-");
    let style = PathStyle::Unix;
    let slash = seq![path::SLASH];
    let root = encode_utf8("acp-agent"@);
    let name = entry_name(agent_id);
    let bytes = encode_utf8(name);
    let record = encode_utf8("archive-address"@);
    assert(is_ascii_chars("acp-agent"@) && is_ascii_chars("archive-address"@));
    is_ascii_chars_encode_utf8("acp-agent"@);
    is_ascii_chars_encode_utf8("archive-address"@);
    assert forall|i: int| 0 <= i < name.len() implies '\0' <= #[trigger] name[i] <= '\u{7f}'
        && name[i] != '/' by {
        if i >= 6 {
            assert(name[i] == entry_char(agent_id[i - 6]));
        }
    }
    assert(is_ascii_chars(name));
    is_ascii_chars_encode_utf8(name);
    assert("acp-agent"@[0] == 'a' && "acp-agent"@[8] == 't' && "archive-address"@[0] == 'a');
    assert(root[0] == 'a' as u8 && root[8] == 't' as u8 && record[0] == 'a' as u8);
    assert(name[0] == 'a');
    assert(bytes[0] == 'a' as u8);
    path::relative_paths_follow_their_directory(style, cache_home, root);
    let top = cache_home + slash + root;
    assert(cache_root(style, cache_home) == top);
    assert(top.last() == root[8]);
    path::relative_paths_follow_their_directory(style, top, bytes);
    let entry = top + slash + bytes;
    assert(entry.last() == bytes.last());
    assert(bytes.last() == name.last() as u8);
    assert(entry.last() != path::SLASH);
    path::relative_paths_follow_their_directory(style, entry, record);
}

/// Where a store failed is shown in the description of the failure in full.
pub proof fn store_errors_show_where_they_failed(error: StoreError)
    ensures
        match error {
            StoreError::NoCacheDirectory => error.cause_text() is None,
            StoreError::Record { path, cause } => text::occurs_in(error.text(), path@)
                && error.cause_text() == Some(cause@),
            StoreError::Clear { path, cause } => text::occurs_in(error.text(), path@)
                && error.cause_text() == Some(cause@),
            StoreError::Publish { path, cause } => text::occurs_in(error.text(), path@)
                && error.cause_text() == Some(cause@),
        },
{
    match error {
        StoreError::NoCacheDirectory => {},
        StoreError::Record { path, cause } => {
            text::lemma_ending_occurs("failed to write "@, path@);
        },
        StoreError::Clear { path, cause } => {
            text::lemma_ending_occurs("failed to clear "@, path@);
        },
        StoreError::Publish { path, cause } => {
            text::lemma_ending_occurs("failed to move the payload to "@, path@);
        },
    }
}

} // verus!
