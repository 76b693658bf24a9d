//! The agent registry: its data, its validation, and how agents are looked up in it.
use vstd::prelude::*;
use vstd::string::*;

use crate::environment::Environment;
use crate::text;
use crate::text::{chars_of, contains_chars, decimal_of, lower_chars, same_text, trim_chars};

verus! {

/// Where the registry payload is published.
pub const REGISTRY_URL: &'static str =
    "https://cdn.agentclientprotocol.com/registry/v1/latest/registry.json";

/// Command-line arguments.
pub type CommandArgs = Vec<String>;

/// Trusted: a JSON value of `serde_json`, which the registry carries without looking inside.
#[verifier::external_type_specification]
#[verifier::external_body]
pub struct ExValue(serde_json::Value);

/// The platforms that binary distributions can target.
#[derive(Debug, Clone, Copy, PartialEq, Eq, Hash, Structural)]
pub enum Platform {
    /// macOS on 64-bit ARM.
    DarwinAarch64,
    /// macOS on 64-bit x86.
    DarwinX86_64,
    /// Linux on 64-bit ARM.
    LinuxAarch64,
    /// Linux on 64-bit x86.
    LinuxX86_64,
    /// Windows on 64-bit ARM.
    WindowsAarch64,
    /// Windows on 64-bit x86.
    WindowsX86_64,
}

/// A binary archive for one platform.
#[derive(Debug, Clone, PartialEq, Eq)]
pub struct BinaryTarget {
    /// The address of the archive.
    pub archive: String,
    /// The command inside the archive.
    pub cmd: String,
    /// Arguments that precede those of the user.
    pub args: Option<CommandArgs>,
    /// Environment overrides.
    pub env: Option<Environment>,
}

/// The binary archives of an agent, by platform.
#[derive(Debug, Clone, PartialEq, Eq)]
pub struct BinaryDistribution {
    /// The archive for macOS on 64-bit ARM.
    pub darwin_aarch64: Option<BinaryTarget>,
    /// The archive for macOS on 64-bit x86.
    pub darwin_x86_64: Option<BinaryTarget>,
    /// The archive for Linux on 64-bit ARM.
    pub linux_aarch64: Option<BinaryTarget>,
    /// The archive for Linux on 64-bit x86.
    pub linux_x86_64: Option<BinaryTarget>,
    /// The archive for Windows on 64-bit ARM.
    pub windows_aarch64: Option<BinaryTarget>,
    /// The archive for Windows on 64-bit x86.
    pub windows_x86_64: Option<BinaryTarget>,
}

/// A package that a package runner starts.
#[derive(Debug, Clone, PartialEq, Eq)]
pub struct PackageDistribution {
    /// The package's name.
    pub package: String,
    /// Arguments that precede those of the user.
    pub args: Option<CommandArgs>,
    /// Environment overrides.
    pub env: Option<Environment>,
}

/// A package for `npx`.
pub type NpxDistribution = PackageDistribution;

/// A package for `uvx`.
pub type UvxDistribution = PackageDistribution;

/// The ways in which an agent is distributed.
#[derive(Debug, Clone, PartialEq, Eq)]
pub struct AgentDistribution {
    /// Binary archives.
    pub binary: Option<BinaryDistribution>,
    /// A package for `npx`.
    pub npx: Option<NpxDistribution>,
    /// A package for `uvx`.
    pub uvx: Option<UvxDistribution>,
}

/// An agent in the registry.
#[derive(Debug, Clone, PartialEq, Eq)]
pub struct RegistryAgent {
    /// The identifier by which the agent is requested.
    pub id: String,
    /// The name shown to people.
    pub name: String,
    /// The agent's version.
    pub version: String,
    /// What the agent does.
    pub description: String,
    /// The address of its source repository.
    pub repository: Option<String>,
    /// The address of its web site.
    pub website: Option<String>,
    /// Who wrote it.
    pub authors: Vec<String>,
    /// Its license.
    pub license: String,
    /// The address of its icon.
    pub icon: Option<String>,
    /// The ways in which it is distributed.
    pub distribution: AgentDistribution,
}

/// The registry of agents.
#[derive(Debug, Clone, PartialEq)]
pub struct Registry {
    /// The version of the registry's format.
    pub version: String,
    /// The agents, in the order of the registry.
    pub agents: Vec<RegistryAgent>,
    /// Further data that this library carries and does not read.
    pub extensions: Option<Vec<serde_json::Value>>,
}

/// Why a registry operation failed.
#[derive(Debug, Clone, PartialEq, Eq)]
pub enum RegistryError {
    /// The payload could not be fetched.
    Fetch {
        /// What went wrong.
        reason: String,
    },
    /// The payload could not be decoded, or is not a valid registry.
    Decode {
        /// What went wrong.
        reason: String,
    },
    /// No agent has the requested identifier.
    AgentNotFound {
        /// The requested identifier.
        id: String,
    },
    /// No binary distribution exists for this operating system and architecture.
    UnsupportedPlatform {
        /// The operating system.
        os: String,
        /// The architecture.
        arch: String,
    },
}

impl RegistryError {
    /// Whether the error says that the payload is unusable for the given reason.
    pub open spec fn rejects_payload(self, why: Seq<char>) -> bool {
        self matches RegistryError::Decode { reason } && reason@ == why
    }

    /// The text that describes the error.
    pub open spec fn text(self) -> Seq<char> {
        match self {
            RegistryError::Fetch { reason } => "failed to fetch registry payload: "@ + reason@,
            RegistryError::Decode { reason } => "failed to decode registry payload from "@
                + REGISTRY_URL@ + ": "@ + reason@,
            RegistryError::AgentNotFound { id } => "agent with id \""@ + id@
                + "\" was not found"@,
            RegistryError::UnsupportedPlatform { os, arch } => "unsupported platform: "@ + os@
                + "-"@ + arch@,
        }
    }

    /// Describes the error.
    pub fn message(&self) -> (out: String)
        ensures
            out@ == self.text(),
    {
        match self {
            RegistryError::Fetch { reason } => {
                let mut out = "failed to fetch registry payload: ".to_owned();
                out.append(reason.as_str());
                out
            },
            RegistryError::Decode { reason } => {
                let mut out = "failed to decode registry payload from ".to_owned();
                out.append(REGISTRY_URL);
                out.append(": ");
                out.append(reason.as_str());
                out
            },
            RegistryError::AgentNotFound { id } => {
                let mut out = "agent with id \"".to_owned();
                out.append(id.as_str());
                out.append("\" was not found");
                out
            },
            RegistryError::UnsupportedPlatform { os, arch } => {
                let mut out = "unsupported platform: ".to_owned();
                out.append(os.as_str());
                out.append("-");
                out.append(arch.as_str());
                out
            },
        }
    }
}

/// The platform of an operating system and an architecture, if binaries exist for it.
pub open spec fn platform_of(os: Seq<char>, arch: Seq<char>) -> Option<Platform> {
    if os == "macos"@ && arch == "aarch64"@ {
        Some(Platform::DarwinAarch64)
    } else if os == "macos"@ && arch == "x86_64"@ {
        Some(Platform::DarwinX86_64)
    } else if os == "linux"@ && arch == "aarch64"@ {
        Some(Platform::LinuxAarch64)
    } else if os == "linux"@ && arch == "x86_64"@ {
        Some(Platform::LinuxX86_64)
    } else if os == "windows"@ && arch == "aarch64"@ {
        Some(Platform::WindowsAarch64)
    } else if os == "windows"@ && arch == "x86_64"@ {
        Some(Platform::WindowsX86_64)
    } else {
        None
    }
}

impl Platform {
    /// The platform of the operating system `os` on the architecture `arch`.
    pub fn current(os: &str, arch: &str) -> (platform: Result<Platform, RegistryError>)
        ensures
            match platform {
                Ok(found) => platform_of(os@, arch@) == Some(found),
                Err(error) => {
                    &&& platform_of(os@, arch@) is None
                    &&& error matches RegistryError::UnsupportedPlatform { os: o, arch: a } && o@
                        == os@ && a@ == arch@
                },
            },
    {
        let aarch64 = same_text(arch, "aarch64");
        let x86_64 = same_text(arch, "x86_64");
        if same_text(os, "macos") {
            if aarch64 {
                return Ok(Platform::DarwinAarch64);
            }
            if x86_64 {
                return Ok(Platform::DarwinX86_64);
            }
        }
        if same_text(os, "linux") {
            if aarch64 {
                return Ok(Platform::LinuxAarch64);
            }
            if x86_64 {
                return Ok(Platform::LinuxX86_64);
            }
        }
        if same_text(os, "windows") {
            if aarch64 {
                return Ok(Platform::WindowsAarch64);
            }
            if x86_64 {
                return Ok(Platform::WindowsX86_64);
            }
        }
        Err(RegistryError::UnsupportedPlatform { os: os.to_owned(), arch: arch.to_owned() })
    }
}

impl BinaryDistribution {
    /// The archive for a platform, if there is one.
    pub open spec fn target(self, platform: Platform) -> Option<BinaryTarget> {
        match platform {
            Platform::DarwinAarch64 => self.darwin_aarch64,
            Platform::DarwinX86_64 => self.darwin_x86_64,
            Platform::LinuxAarch64 => self.linux_aarch64,
            Platform::LinuxX86_64 => self.linux_x86_64,
            Platform::WindowsAarch64 => self.windows_aarch64,
            Platform::WindowsX86_64 => self.windows_x86_64,
        }
    }

    /// The archive for `platform`, if there is one.
    pub fn for_platform(&self, platform: Platform) -> (target: Option<&BinaryTarget>)
        ensures
            match target {
                Some(found) => self.target(platform) == Some(*found),
                None => self.target(platform) is None,
            },
    {
        match platform {
            Platform::DarwinAarch64 => self.darwin_aarch64.as_ref(),
            Platform::DarwinX86_64 => self.darwin_x86_64.as_ref(),
            Platform::LinuxAarch64 => self.linux_aarch64.as_ref(),
            Platform::LinuxX86_64 => self.linux_x86_64.as_ref(),
            Platform::WindowsAarch64 => self.windows_aarch64.as_ref(),
            Platform::WindowsX86_64 => self.windows_x86_64.as_ref(),
        }
    }
}

impl Default for BinaryDistribution {
    fn default() -> (distribution: BinaryDistribution)
        ensures
            forall|platform: Platform| distribution.target(platform) is None,
    {
        BinaryDistribution {
            darwin_aarch64: None,
            darwin_x86_64: None,
            linux_aarch64: None,
            linux_x86_64: None,
            windows_aarch64: None,
            windows_x86_64: None,
        }
    }
}

impl Default for AgentDistribution {
    fn default() -> (distribution: AgentDistribution)
        ensures
            !distribution.has_source(),
    {
        AgentDistribution { binary: None, npx: None, uvx: None }
    }
}

impl AgentDistribution {
    /// Whether the distribution names a source at all.
    pub open spec fn has_source(self) -> bool {
        self.binary is Some || self.npx is Some || self.uvx is Some
    }

    /// Whether the distribution names a source at all.
    pub fn has_distribution_source(&self) -> (has: bool)
        ensures
            has == self.has_source(),
    {
        self.binary.is_some() || self.npx.is_some() || self.uvx.is_some()
    }

    /// Accepts a distribution with a source; otherwise the error names `path`.
    pub fn validate(&self, path: &str) -> (valid: Result<(), RegistryError>)
        ensures
            match valid {
                Ok(()) => self.has_source(),
                Err(error) => {
                    &&& !self.has_source()
                    &&& error.rejects_payload(missing_source(path@))
                },
            },
    {
        if self.has_distribution_source() {
            Ok(())
        } else {
            let mut reason = path.to_owned();
            reason.append(".distribution must contain at least one of binary, npx, or uvx");
            Err(RegistryError::Decode { reason })
        }
    }
}

/// What is wrong with an agent at `path` that has no source.
pub open spec fn missing_source(path: Seq<char>) -> Seq<char> {
    path + ".distribution must contain at least one of binary, npx, or uvx"@
}

/// The path of the agent at `index` in the payload.
pub open spec fn agent_path(index: nat) -> Seq<char> {
    "agents["@ + text::decimal(index) + "]"@
}

/// Whether the agent at `index` is the first without a source.
pub open spec fn first_without_source(agents: Seq<RegistryAgent>, index: int) -> bool {
    &&& 0 <= index < agents.len()
    &&& !agents[index].distribution.has_source()
    &&& forall|i: int| 0 <= i < index ==> (#[trigger] agents[i]).distribution.has_source()
}

/// Whether the agent at `index` is the first with the identifier `id`.
pub open spec fn first_with_id(agents: Seq<RegistryAgent>, id: Seq<char>, index: int) -> bool {
    &&& 0 <= index < agents.len()
    &&& agents[index].id@ == id
    &&& forall|i: int| 0 <= i < index ==> (#[trigger] agents[i]).id@ != id
}

/// Whether no agent has the identifier `id`.
pub open spec fn none_with_id(agents: Seq<RegistryAgent>, id: Seq<char>) -> bool {
    forall|i: int| 0 <= i < agents.len() ==> (#[trigger] agents[i]).id@ != id
}

/// What a query searches for: the query without surrounding white space, in lower case.
pub open spec fn needle(query: Seq<char>) -> Seq<char> {
    text::lower(text::trim(query))
}

/// Whether a query matches an agent: it occurs in the agent's identifier, name or description,
/// whatever the case of either.
pub open spec fn matches_query(agent: RegistryAgent, query: Seq<char>) -> bool {
    ||| text::occurs_in(text::lower(agent.id@), needle(query))
    ||| text::occurs_in(text::lower(agent.name@), needle(query))
    ||| text::occurs_in(text::lower(agent.description@), needle(query))
}

impl Registry {
    /// Whether every agent of the registry names a source.
    pub open spec fn is_valid(self) -> bool {
        forall|i: int| 0 <= i < self.agents@.len() ==> (#[trigger] self.agents@[i]).distribution.has_source()
    }

    /// Accepts what was decoded from a payload: the registry if it is valid.
    pub fn from_decoded(decoded: Result<Registry, String>) -> (registry: Result<
        Registry,
        RegistryError,
    >)
        ensures
            match (decoded, registry) {
                (Ok(payload), Ok(accepted)) => accepted == payload && payload.is_valid(),
                (Ok(payload), Err(error)) => exists|i: int|
                    #[trigger] first_without_source(payload.agents@, i) && error.rejects_payload(
                    missing_source(agent_path(i as nat)),
                ),
                (Err(cause), Err(error)) => error.rejects_payload(cause@),
                (Err(cause), Ok(accepted)) => false,
            },
    {
        match decoded {
            Ok(registry) => {
                match registry.validate() {
                    Ok(()) => Ok(registry),
                    Err(error) => Err(error),
                }
            },
            Err(reason) => Err(RegistryError::Decode { reason }),
        }
    }

    /// Accepts a registry whose agents all name a source; otherwise the error names the first
    /// that does not.
    pub fn validate(&self) -> (valid: Result<(), RegistryError>)
        ensures
            match valid {
                Ok(()) => self.is_valid(),
                Err(error) => exists|i: int|
                    #[trigger] first_without_source(self.agents@, i) && error.rejects_payload(
                    missing_source(agent_path(i as nat)),
                ),
            },
    {
        let mut index: usize = 0;
        while index < self.agents.len()
            invariant
                index <= self.agents@.len(),
                forall|i: int|
                    0 <= i < index ==> (#[trigger] self.agents@[i]).distribution.has_source(),
            decreases self.agents.len() - index,
        {
            let mut path = "agents[".to_owned();
            path.append(decimal_of(index as u64).as_str());
            path.append("]");
            match self.agents[index].distribution.validate(path.as_str()) {
                Ok(()) => {},
                Err(error) => {
                    assert(first_without_source(self.agents@, index as int));
                    return Err(error);
                },
            }
            index += 1;
        }
        Ok(())
    }

    /// The agents, in the order of the registry.
    pub fn list_agents(&self) -> (agents: &[RegistryAgent])
        ensures
            agents@ == self.agents@,
    {
        self.agents.as_slice()
    }

    /// The first agent with the identifier `agent_id`, if there is one.
    pub fn find_agent(&self, agent_id: &str) -> (agent: Option<&RegistryAgent>)
        ensures
            match agent {
                Some(found) => exists|i: int|
                    #[trigger] first_with_id(self.agents@, agent_id@, i) && self.agents@[i]
                        == *found,
                None => none_with_id(self.agents@, agent_id@),
            },
    {
        let mut i: usize = 0;
        while i < self.agents.len()
            invariant
                i <= self.agents@.len(),
                forall|j: int| 0 <= j < i ==> (#[trigger] self.agents@[j]).id@ != agent_id@,
            decreases self.agents.len() - i,
        {
            if same_text(self.agents[i].id.as_str(), agent_id) {
                assert(first_with_id(self.agents@, agent_id@, i as int));
                return Some(&self.agents[i]);
            }
            i += 1;
        }
        None
    }

    /// The first agent with the identifier `agent_id`; an error if there is none.
    pub fn get_agent(&self, agent_id: &str) -> (agent: Result<&RegistryAgent, RegistryError>)
        ensures
            match agent {
                Ok(found) => exists|i: int|
                    #[trigger] first_with_id(self.agents@, agent_id@, i) && self.agents@[i]
                        == *found,
                Err(error) => {
                    &&& none_with_id(self.agents@, agent_id@)
                    &&& error matches RegistryError::AgentNotFound { id } && id@ == agent_id@
                },
            },
    {
        match self.find_agent(agent_id) {
            Some(found) => Ok(found),
            None => Err(RegistryError::AgentNotFound { id: agent_id.to_owned() }),
        }
    }

    /// The agents that `query` matches, in the order of the registry. A query of white space
    /// matches every agent.
    pub fn search_agents(&self, query: &str) -> (found: Vec<&RegistryAgent>)
        ensures
            found@.map_values(|agent: &RegistryAgent| *agent) == self.agents@.filter(
                |agent: RegistryAgent| matches_query(agent, query@),
            ),
            needle(query@).len() == 0 ==> found@.map_values(|agent: &RegistryAgent| *agent)
                == self.agents@,
    {
        let wanted = lower_chars(trim_chars(chars_of(query).as_slice()).as_slice());
        let ghost keep = |agent: RegistryAgent| matches_query(agent, query@);
        let ghost plain = |agent: &RegistryAgent| *agent;
        let mut found: Vec<&RegistryAgent> = Vec::new();
        let mut i: usize = 0;
        assert(self.agents@.take(0).filter(keep) =~= Seq::empty()) by {
            reveal(Seq::filter);
        }
        assert(found@.map_values(plain) =~= Seq::empty());
        while i < self.agents.len()
            invariant
                i <= self.agents@.len(),
                wanted@ == needle(query@),
                keep == (|agent: RegistryAgent| matches_query(agent, query@)),
                plain == (|agent: &RegistryAgent| *agent),
                found@.map_values(plain) == self.agents@.take(i as int).filter(keep),
            decreases self.agents.len() - i,
        {
            let agent = &self.agents[i];
            let ghost before = found@;
            let ghost seen = self.agents@.take(i as int);
            if text_matches(agent.id.as_str(), &wanted) || text_matches(
                agent.name.as_str(),
                &wanted,
            ) || text_matches(agent.description.as_str(), &wanted) {
                found.push(agent);
                assert(found@.map_values(plain) =~= before.map_values(plain).push(*agent));
            }
            proof {
                let next = self.agents@.take(i + 1);
                assert(next.drop_last() =~= seen);
                assert(next.last() == *agent);
                assert(next.filter(keep) == if keep(*agent) {
                    seen.filter(keep).push(*agent)
                } else {
                    seen.filter(keep)
                }) by {
                    reveal(Seq::filter);
                }
            }
            i += 1;
        }
        assert(self.agents@.take(self.agents@.len() as int) =~= self.agents@);
        proof {
            if needle(query@).len() == 0 {
                lemma_blank_query_keeps_all(self.agents@, query@);
            }
        }
        found
    }
}

/// Whether `wanted` occurs in the lower-case form of `value`.
fn text_matches(value: &str, wanted: &Vec<char>) -> (found: bool)
    ensures
        found == text::occurs_in(text::lower(value@), wanted@),
{
    let value = lower_chars(chars_of(value).as_slice());
    contains_chars(value.as_slice(), wanted.as_slice())
}

/// A blank query keeps every agent.
proof fn lemma_blank_query_keeps_all(agents: Seq<RegistryAgent>, query: Seq<char>)
    requires
        needle(query).len() == 0,
    ensures
        agents.filter(|agent: RegistryAgent| matches_query(agent, query)) == agents,
    decreases agents.len(),
{
    let keep = |agent: RegistryAgent| matches_query(agent, query);
    reveal(Seq::filter);
    if agents.len() > 0 {
        lemma_blank_query_keeps_all(agents.drop_last(), query);
        let id = text::lower(agents.last().id@);
        assert(id.subrange(0, 0) =~= needle(query));
        assert(text::occurs_at(id, needle(query), 0));
        assert(keep(agents.last()));
        assert(agents.drop_last().push(agents.last()) =~= agents);
    } else {
        assert(agents.filter(keep) =~= agents);
    }
}

/// The registry that a fetch yields. `fetched` is the error of the transfer, or what the decoder
/// made of the payload.
pub fn fetch_registry(fetched: Result<Result<Registry, String>, String>) -> (registry: Result<
    Registry,
    RegistryError,
>)
    ensures
        match (fetched, registry) {
            (Ok(Ok(payload)), Ok(accepted)) => accepted == payload && payload.is_valid(),
            (Ok(Ok(payload)), Err(error)) => exists|i: int|
                #[trigger] first_without_source(payload.agents@, i) && error.rejects_payload(
                    missing_source(agent_path(i as nat)),
                ),
            (Ok(Err(cause)), Err(error)) => error.rejects_payload(cause@),
            (Err(cause), Err(error)) => error matches RegistryError::Fetch { reason } && reason@
                == cause@,
            _ => false,
        },
{
    match fetched {
        Ok(decoded) => Registry::from_decoded(decoded),
        Err(reason) => Err(RegistryError::Fetch { reason }),
    }
}

// ---------------------------------------------------------------------------
// Laws
// ---------------------------------------------------------------------------

/// A search does not depend on the case of the query.
pub proof fn search_ignores_case(agent: RegistryAgent, query: Seq<char>, other: Seq<char>)
    requires
        text::lower(query) == text::lower(other),
    ensures
        matches_query(agent, query) == matches_query(agent, other),
{
    text::lemma_lower_trims(query);
    text::lemma_lower_trims(other);
}

/// A search does not depend on white space around the query.
pub proof fn search_ignores_surrounding_space(
    agent: RegistryAgent,
    before: Seq<char>,
    query: Seq<char>,
    after: Seq<char>,
)
    requires
        text::is_blank(before),
        text::is_blank(after),
    ensures
        matches_query(agent, before + query + after) == matches_query(agent, query),
{
    text::lemma_trim_ignores_padding(before, query, after);
}

/// A search for an agent's identifier, name or description finds the agent.
pub proof fn search_finds_agent_by_own_texts(agent: RegistryAgent)
    ensures
        matches_query(agent, agent.id@),
        matches_query(agent, agent.name@),
        matches_query(agent, agent.description@),
{
    text::lemma_trim_occurs(agent.id@);
    text::lemma_lower_keeps_occurrence(agent.id@, text::trim(agent.id@));
    text::lemma_trim_occurs(agent.name@);
    text::lemma_lower_keeps_occurrence(agent.name@, text::trim(agent.name@));
    text::lemma_trim_occurs(agent.description@);
    text::lemma_lower_keeps_occurrence(agent.description@, text::trim(agent.description@));
}

/// Looking up an identifier is unambiguous: some agent has it, and then exactly one is the first,
/// or none has it.
pub proof fn lookup_is_unambiguous(agents: Seq<RegistryAgent>, id: Seq<char>, i: int, j: int)
    ensures
        none_with_id(agents, id) <==> !(exists|k: int| first_with_id(agents, id, k)),
        first_with_id(agents, id, i) && first_with_id(agents, id, j) ==> i == j,
{
    if !none_with_id(agents, id) {
        let k = choose|k: int| 0 <= k < agents.len() && (#[trigger] agents[k]).id@ == id;
        lemma_first_with_id(agents, id, k);
    }
}

proof fn lemma_first_with_id(agents: Seq<RegistryAgent>, id: Seq<char>, k: int)
    requires
        0 <= k < agents.len(),
        agents[k].id@ == id,
    ensures
        exists|i: int| first_with_id(agents, id, i),
    decreases k,
{
    if exists|i: int| 0 <= i < k && (#[trigger] agents[i]).id@ == id {
        let i = choose|i: int| 0 <= i < k && (#[trigger] agents[i]).id@ == id;
        lemma_first_with_id(agents, id, i);
    } else {
        assert(first_with_id(agents, id, k));
    }
}

/// A registry is valid or has a first agent without a source, never both; so a payload is
/// accepted exactly if it is valid.
pub proof fn registry_is_valid_or_names_culprit(registry: Registry)
    ensures
        registry.is_valid() <==> !(exists|i: int| first_without_source(registry.agents@, i)),
{
    if !registry.is_valid() {
        let k = choose|k: int|
            0 <= k < registry.agents@.len()
                && !(#[trigger] registry.agents@[k]).distribution.has_source();
        lemma_first_without_source(registry.agents@, k);
    }
}

proof fn lemma_first_without_source(agents: Seq<RegistryAgent>, k: int)
    requires
        0 <= k < agents.len(),
        !agents[k].distribution.has_source(),
    ensures
        exists|i: int| first_without_source(agents, i),
    decreases k,
{
    if exists|i: int| 0 <= i < k && !(#[trigger] agents[i]).distribution.has_source() {
        let i = choose|i: int| 0 <= i < k && !(#[trigger] agents[i]).distribution.has_source();
        lemma_first_without_source(agents, i);
    } else {
        assert(first_without_source(agents, k));
    }
}

/// A search finds every agent whose identifier, name or description holds what is searched for:
/// `part` stands in the text between `before` and `behind`, has no white space at its ends, and
/// `query` differs from it in nothing but the case of ASCII letters.
pub proof fn search_finds_agents_by_any_part(
    agent: RegistryAgent,
    before: Seq<char>,
    part: Seq<char>,
    behind: Seq<char>,
    query: Seq<char>,
)
    requires
        agent.id@ == before + part + behind || agent.name@ == before + part + behind
            || agent.description@ == before + part + behind,
        part.len() > 0 ==> !text::is_white(part[0]) && !text::is_white(part[part.len() - 1]),
        query.len() == part.len(),
        forall|i: int|
            0 <= i < part.len() ==> #[trigger] query[i] == part[i] || ('A' <= part[i] <= 'Z'
                && query[i] as int == part[i] as int + 32) || ('a' <= part[i] <= 'z'
                && query[i] as int == part[i] as int - 32),
    ensures
        matches_query(agent, query),
{
    let held = before + part + behind;
    text::lower_changes_capitals_only(query);
    text::lower_changes_capitals_only(part);
    assert(text::lower(query) =~= text::lower(part));
    text::trimmed_texts_stay(part);
    text::lemma_lower_trims(query);
    text::lemma_lower_trims(part);
    assert(needle(query) == text::lower(part));
    text::lemma_part_occurs(before, part, behind);
    text::lemma_lower_keeps_occurrence(held, part);
}

/// An agent that a search finds holds what was searched for: `at` is the place of the query,
/// without the white space around it, in the identifier, the name or the description, but for the
/// case of ASCII letters. The query without that white space reaches from `from` to `to`.
pub proof fn found_agents_hold_the_query(agent: RegistryAgent, query: Seq<char>) -> (found: (
    Seq<char>,
    int,
    int,
    int,
))
    requires
        matches_query(agent, query),
    ensures
        ({
            let (held, at, from, to) = found;
            &&& held == agent.id@ || held == agent.name@ || held == agent.description@
            &&& 0 <= from <= to <= query.len()
            &&& forall|i: int| 0 <= i < from ==> text::is_white(#[trigger] query[i])
            &&& forall|i: int| to <= i < query.len() ==> text::is_white(#[trigger] query[i])
            &&& from < to ==> !text::is_white(query[from]) && !text::is_white(query[to - 1])
            &&& 0 <= at
            &&& at + (to - from) <= held.len()
            &&& forall|i: int|
                0 <= i < to - from ==> #[trigger] held[at + i] == query[from + i] || ('A'
                    <= query[from + i] <= 'Z' && held[at + i] as int == query[from + i] as int + 32)
                    || ('a' <= query[from + i] <= 'z' && held[at + i] as int == query[from + i]
                    as int - 32)
        }),
{
    let (from, to) = text::trim_takes_off_white_space_only(query);
    let part = text::trim(query);
    let held = if text::occurs_in(text::lower(agent.id@), needle(query)) {
        agent.id@
    } else if text::occurs_in(text::lower(agent.name@), needle(query)) {
        agent.name@
    } else {
        agent.description@
    };
    let at = choose|at: int| text::occurs_at(text::lower(held), needle(query), at);
    text::lower_changes_capitals_only(held);
    text::lower_changes_capitals_only(part);
    assert forall|i: int| 0 <= i < to - from implies #[trigger] held[at + i] == query[from + i] || (
    'A' <= query[from + i] <= 'Z' && held[at + i] as int == query[from + i] as int + 32) || ('a'
        <= query[from + i] <= 'z' && held[at + i] as int == query[from + i] as int - 32) by {
        assert(part[i] == query[from + i]);
        assert(text::lower(held).subrange(at, at + part.len())[i] == text::lower(held)[at + i]);
        assert(needle(query)[i] == text::lower(part)[i]);
    }
    (held, at, from, to)
}

/// The agents that a search finds are agents of the registry in its order, and every agent that
/// matches is among them.
pub proof fn search_keeps_matching_agents_in_order(
    agents: Seq<RegistryAgent>,
    query: Seq<char>,
    found: Seq<RegistryAgent>,
) -> (places: Seq<int>)
    requires
        found == agents.filter(|agent: RegistryAgent| matches_query(agent, query)),
    ensures
        places.len() == found.len(),
        forall|k: int|
            0 <= k < places.len() ==> 0 <= #[trigger] places[k] < agents.len() && found[k]
                == agents[places[k]] && matches_query(found[k], query),
        forall|k: int, m: int| 0 <= k < m < places.len() ==> places[k] < places[m],
        forall|i: int|
            0 <= i < agents.len() && matches_query(#[trigger] agents[i], query)
                ==> places.contains(i),
    decreases agents.len(),
{
    let keep = |agent: RegistryAgent| matches_query(agent, query);
    reveal(Seq::filter);
    if agents.len() == 0 {
        Seq::empty()
    } else {
        let front = agents.drop_last();
        let earlier = search_keeps_matching_agents_in_order(front, query, front.filter(keep));
        let last = agents.len() - 1;
        let places = if keep(agents.last()) {
            earlier.push(last)
        } else {
            earlier
        };
        assert forall|k: int| 0 <= k < places.len() implies 0 <= #[trigger] places[k]
            < agents.len() && found[k] == agents[places[k]] && matches_query(found[k], query) by {
            if k < earlier.len() {
                assert(earlier[k] == places[k]);
                assert(front[earlier[k]] == agents[places[k]]);
            }
        }
        assert forall|k: int, m: int| 0 <= k < m < places.len() implies places[k] < places[m] by {
            if k < earlier.len() {
                assert(earlier[k] == places[k]);
            }
            if m < earlier.len() {
                assert(earlier[m] == places[m]);
            }
        }
        assert forall|i: int|
            0 <= i < agents.len() && matches_query(
                #[trigger] agents[i],
                query,
            ) implies places.contains(i) by {
            if i < last {
                assert(front[i] == agents[i]);
                assert(earlier.contains(i));
                let k = choose|k: int| 0 <= k < earlier.len() && earlier[k] == i;
                assert(places[k] == i);
            } else {
                assert(places[places.len() - 1] == i);
            }
        }
        places
    }
}

/// An agent is looked up by exactly the identifier that it has, character for character, and the
/// first in the registry is the one that counts.
pub proof fn agents_are_looked_up_by_their_identifier(
    agents: Seq<RegistryAgent>,
    id: Seq<char>,
    i: int,
)
    ensures
        first_with_id(agents, id, i) <==> 0 <= i < agents.len() && agents[i].id@ == id && (forall|
            j: int,
        |
            0 <= j < i ==> (#[trigger] agents[j]).id@ != id),
        none_with_id(agents, id) <==> (forall|j: int|
            0 <= j < agents.len() ==> (#[trigger] agents[j]).id@ != id),
        0 <= i < agents.len() && agents[i].id@ == id ==> !none_with_id(agents, id),
{
}

/// Each platform has one operating system and one architecture, and its archive is the one that the
/// registry lists for it.
pub proof fn platforms_have_their_own_archives(
    os: Seq<char>,
    arch: Seq<char>,
    binary: BinaryDistribution,
    platform: Platform,
)
    requires
        platform_of(os, arch) == Some(platform),
    ensures
        os == "linux"@ && arch == "x86_64"@ <==> platform == Platform::LinuxX86_64,
        os == "linux"@ && arch == "aarch64"@ <==> platform == Platform::LinuxAarch64,
        os == "macos"@ && arch == "x86_64"@ <==> platform == Platform::DarwinX86_64,
        os == "macos"@ && arch == "aarch64"@ <==> platform == Platform::DarwinAarch64,
        os == "windows"@ && arch == "x86_64"@ <==> platform == Platform::WindowsX86_64,
        os == "windows"@ && arch == "aarch64"@ <==> platform == Platform::WindowsAarch64,
        os == "linux"@ && arch == "x86_64"@ ==> binary.target(platform) == binary.linux_x86_64,
        os == "linux"@ && arch == "aarch64"@ ==> binary.target(platform) == binary.linux_aarch64,
        os == "macos"@ && arch == "x86_64"@ ==> binary.target(platform) == binary.darwin_x86_64,
        os == "macos"@ && arch == "aarch64"@ ==> binary.target(platform) == binary.darwin_aarch64,
        os == "windows"@ && arch == "x86_64"@ ==> binary.target(platform) == binary.windows_x86_64,
        os == "windows"@ && arch == "aarch64"@ ==> binary.target(platform)
            == binary.windows_aarch64,
{
    reveal_strlit("linux");
    reveal_strlit("macos");
    reveal_strlit("windows");
    reveal_strlit("x86_64");
    reveal_strlit("aarch64");
    assert("linux"@[0] == 'l' && "macos"@[0] == 'm' && "windows"@[0] == 'w');
    assert("x86_64"@[0] == 'x' && "aarch64"@[0] == 'a');
}

/// A platform is known exactly for the three operating systems on the two architectures.
pub proof fn known_platforms_are_three_by_two(os: Seq<char>, arch: Seq<char>)
    ensures
        platform_of(os, arch) is Some <==> (os == "macos"@ || os == "linux"@ || os == "windows"@)
            && (arch == "aarch64"@ || arch == "x86_64"@),
{
}

/// An agent needs one source, of whichever kind. A registry is refused for the first agent without
/// one, which the error names by its position.
pub proof fn one_source_is_enough(agents: Seq<RegistryAgent>, i: int, error: RegistryError)
    requires
        first_without_source(agents, i),
        error.rejects_payload(missing_source(agent_path(i as nat))),
    ensures
        0 <= i < agents.len(),
        agents[i].distribution.binary is None,
        agents[i].distribution.npx is None,
        agents[i].distribution.uvx is None,
        forall|j: int|
            0 <= j < i ==> (#[trigger] agents[j]).distribution.binary is Some
                || agents[j].distribution.npx is Some || agents[j].distribution.uvx is Some,
        error matches RegistryError::Decode { reason } && reason@ == "agents["@ + text::decimal(
            i as nat,
        ) + "]"@ + ".distribution must contain at least one of binary, npx, or uvx"@,
{
}

/// A valid registry is one whose agents each have a source.
pub proof fn agents_of_a_valid_registry_have_sources(registry: Registry)
    ensures
        registry.is_valid() <==> (forall|i: int|
            0 <= i < registry.agents@.len() ==> (#[trigger] registry.agents@[i]).distribution.binary
                is Some || registry.agents@[i].distribution.npx is Some
                || registry.agents@[i].distribution.uvx is Some),
{
}

/// What an error is about is shown in its description in full.
pub proof fn registry_errors_show_what_they_are_about(error: RegistryError)
    ensures
        match error {
            RegistryError::Fetch { reason } => text::occurs_in(error.text(), reason@),
            RegistryError::Decode { reason } => text::occurs_in(error.text(), reason@),
            RegistryError::AgentNotFound { id } => text::occurs_in(error.text(), id@),
            RegistryError::UnsupportedPlatform { os, arch } => text::occurs_in(error.text(), os@)
                && text::occurs_in(error.text(), arch@),
        },
{
    match error {
        RegistryError::Fetch { reason } => {
            text::lemma_ending_occurs("failed to fetch registry payload: "@, reason@);
        },
        RegistryError::Decode { reason } => {
            text::lemma_ending_occurs(
                "failed to decode registry payload from "@ + REGISTRY_URL@ + ": "@,
                reason@,
            );
        },
        RegistryError::AgentNotFound { id } => {
            text::lemma_part_occurs("agent with id \""@, id@, "\" was not found"@);
        },
        RegistryError::UnsupportedPlatform { os, arch } => {
            let label = "unsupported platform: "@;
            text::lemma_ending_occurs(label + os@ + "-"@, arch@);
            text::lemma_part_occurs(label, os@, "-"@);
            text::lemma_occurs_further(Seq::empty(), label + os@ + "-"@, arch@, os@);
        },
    }
}

} // verus!
