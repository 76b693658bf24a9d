//! Why an agent could not be installed.
use vstd::prelude::*;

use crate::registry::RegistryError;

verus! {

/// What kind of input or output failed.
#[derive(Debug, Clone, Copy, PartialEq, Eq, Structural)]
pub enum IoErrorKind {
    /// Something does not exist.
    NotFound,
    /// Something that has no kind of its own.
    Other,
    /// Something that the operating system reported.
    System,
}

/// A failure of input or output.
#[derive(Debug, Clone, PartialEq, Eq)]
pub struct IoError {
    /// What kind of failure.
    pub kind: IoErrorKind,
    /// The description.
    pub message: String,
}

/// Why an agent could not be installed.
#[derive(Debug, Clone, PartialEq, Eq)]
pub enum InstallError {
    /// The registry could not be fetched.
    FetchRegistry(RegistryError),
    /// The agent is not in the registry.
    AgentNotFound(RegistryError),
    /// The platform has no name among those of binaries.
    UnsupportedPlatform(RegistryError),
    /// The agent cannot be used on this platform.
    UnavailableDistribution {
        /// The agent's identifier.
        agent_id: String,
    },
    /// The address of the archive is not an address.
    InvalidArchiveUrl(String),
    /// The command of the archive does not name a file.
    InvalidCommandPath(String),
    /// The archive does not hold the command that it should.
    BinaryNotFound {
        /// The address of the archive.
        archive: String,
        /// The command.
        cmd: String,
        /// Where the command was looked for.
        resolved_path: String,
    },
    /// The archive is of an unknown format.
    UnsupportedArchiveFormat(String),
    /// The archive holds an entry that leads outside of it.
    UnsafeArchiveEntry(String),
    /// A network request failed.
    Request(String),
    /// Input or output failed.
    Io(IoError),
    /// A ZIP archive could not be extracted.
    Zip(String),
    /// A task failed.
    Join(String),
    /// The user has no home directory.
    MissingHomeDirectory,
    /// A command could not be started.
    CommandIo {
        /// The program.
        program: String,
        /// What went wrong.
        source: IoError,
    },
    /// A command failed.
    CommandFailed {
        /// The program.
        program: String,
        /// What it was run for.
        subject: String,
        /// What it said.
        detail: String,
    },
}

} // verus!
