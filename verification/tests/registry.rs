use acp_agent::environment::Environment;
use acp_agent::registry::{
    fetch_registry, AgentDistribution, BinaryDistribution, BinaryTarget, PackageDistribution,
    Platform, Registry, RegistryAgent, RegistryError, REGISTRY_URL,
};

fn package(name: &str) -> PackageDistribution {
    PackageDistribution {
        package: name.to_string(),
        args: None,
        env: None,
    }
}

fn agent(
    id: &str,
    name: &str,
    description: &str,
    distribution: AgentDistribution,
) -> RegistryAgent {
    RegistryAgent {
        id: id.to_string(),
        name: name.to_string(),
        version: "0.1.0".to_string(),
        description: description.to_string(),
        repository: None,
        website: None,
        authors: vec!["ACP".to_string()],
        license: "MIT".to_string(),
        icon: None,
        distribution,
    }
}

fn registry(agents: Vec<RegistryAgent>) -> Result<Registry, RegistryError> {
    Registry::from_decoded(Ok(Registry {
        version: "1".to_string(),
        agents,
        extensions: None,
    }))
}

fn npx(name: &str) -> AgentDistribution {
    AgentDistribution {
        npx: Some(package(name)),
        ..Default::default()
    }
}

fn two_agents() -> Registry {
    registry(vec![
        agent("alpha", "Alpha Agent", "First result", npx("@acp/alpha")),
        agent(
            "beta",
            "Beta Agent",
            "Second result",
            AgentDistribution {
                uvx: Some(package("acp-beta")),
                ..Default::default()
            },
        ),
    ])
    .expect("registry should decode")
}

#[test]
fn decodes_registry_with_binary_distribution() {
    let registry = registry(vec![agent(
        "test-agent",
        "Test Agent",
        "Example agent",
        AgentDistribution {
            binary: Some(BinaryDistribution {
                linux_x86_64: Some(BinaryTarget {
                    archive: "https://example.com/test-agent.tar.gz".to_string(),
                    cmd: "test-agent".to_string(),
                    args: None,
                    env: None,
                }),
                ..Default::default()
            }),
            ..Default::default()
        },
    )])
    .expect("registry should decode");

    let agent = registry
        .get_agent("test-agent")
        .expect("agent should exist");
    assert!(agent.distribution.binary.is_some());
    assert!(registry.search_agents("example").len() == 1);
}

#[test]
fn rejects_distribution_without_any_source() {
    let error = registry(vec![agent(
        "broken-agent",
        "Broken Agent",
        "Missing distribution payload",
        AgentDistribution::default(),
    )])
    .expect_err("registry should reject empty distribution");

    assert!(error
        .message()
        .contains("distribution must contain at least one of binary, npx, or uvx"));
}

#[test]
fn finds_agents_case_insensitively() {
    let registry = two_agents();

    let results = registry.search_agents("ALPHA");
    assert_eq!(results.len(), 1);
    assert_eq!(results[0].id, "alpha");
}

#[test]
fn selects_binary_target_for_platform() {
    let distribution = BinaryDistribution {
        linux_x86_64: Some(BinaryTarget {
            archive: "https://example.com/tool.tar.gz".to_string(),
            cmd: "./tool".to_string(),
            args: None,
            env: None,
        }),
        ..Default::default()
    };

    let target = distribution
        .for_platform(Platform::LinuxX86_64)
        .expect("target should exist");
    assert_eq!(target.cmd, "./tool");
}

#[test]
fn each_platform_has_its_own_target() {
    let target = |cmd: &str| {
        Some(BinaryTarget {
            archive: String::new(),
            cmd: cmd.to_string(),
            args: None,
            env: None,
        })
    };
    let distribution = BinaryDistribution {
        darwin_aarch64: target("da"),
        darwin_x86_64: target("dx"),
        linux_aarch64: target("la"),
        linux_x86_64: target("lx"),
        windows_aarch64: target("wa"),
        windows_x86_64: target("wx"),
    };
    for (os, arch, cmd) in [
        ("macos", "aarch64", "da"),
        ("macos", "x86_64", "dx"),
        ("linux", "aarch64", "la"),
        ("linux", "x86_64", "lx"),
        ("windows", "aarch64", "wa"),
        ("windows", "x86_64", "wx"),
    ] {
        let platform = Platform::current(os, arch).unwrap();
        assert_eq!(distribution.for_platform(platform).unwrap().cmd, cmd);
        assert!(BinaryDistribution::default().for_platform(platform).is_none());
    }
}

#[test]
fn unknown_platforms_are_named() {
    for (os, arch) in [("freebsd", "x86_64"), ("linux", "riscv64"), ("", "")] {
        let error = Platform::current(os, arch).unwrap_err();
        assert_eq!(error.message(), format!("unsupported platform: {os}-{arch}"));
    }
}

#[test]
fn first_agent_without_source_is_named() {
    let broken = |id: &str| agent(id, id, "", AgentDistribution::default());
    let mut agents = vec![agent("good", "Good", "", npx("p")); 11];
    agents.push(broken("first"));
    agents.push(broken("second"));
    let error = registry(agents).unwrap_err();
    assert_eq!(
        error.message(),
        format!(
            "failed to decode registry payload from {REGISTRY_URL}: agents[11].distribution must \
             contain at least one of binary, npx, or uvx"
        )
    );
}

#[test]
fn every_source_counts() {
    assert!(!AgentDistribution::default().has_distribution_source());
    assert!(npx("p").has_distribution_source());
    assert!(AgentDistribution {
        uvx: Some(package("p")),
        ..Default::default()
    }
    .has_distribution_source());
    assert!(AgentDistribution {
        binary: Some(BinaryDistribution::default()),
        ..Default::default()
    }
    .has_distribution_source());
}

#[test]
fn decoder_and_transfer_failures_are_reported() {
    let decode = fetch_registry(Ok(Err("missing field `id`".to_string()))).unwrap_err();
    assert_eq!(
        decode.message(),
        "failed to decode registry payload from \
         https://cdn.agentclientprotocol.com/registry/v1/latest/registry.json: missing field `id`"
    );
    let fetch = fetch_registry(Err("timed out".to_string())).unwrap_err();
    assert_eq!(fetch.message(), "failed to fetch registry payload: timed out");
    let kept = fetch_registry(Ok(Ok(two_agents()))).unwrap();
    assert_eq!(kept, two_agents());
}

#[test]
fn extensions_are_carried_unchanged() {
    let extensions = vec![serde_json::Value::from(7), serde_json::Value::Null];
    let decoded = Registry {
        version: "1".to_string(),
        agents: vec![],
        extensions: Some(extensions.clone()),
    };
    let accepted = Registry::from_decoded(Ok(decoded)).unwrap();
    assert_eq!(accepted.extensions, Some(extensions));
    assert!(accepted.list_agents().is_empty());
}

#[test]
fn lookup_takes_the_first_of_equal_identifiers() {
    let registry = registry(vec![
        agent("a", "one", "", npx("p")),
        agent("b", "two", "", npx("p")),
        agent("b", "three", "", npx("p")),
    ])
    .unwrap();
    assert_eq!(registry.find_agent("b").unwrap().name, "two");
    assert_eq!(registry.get_agent("b").unwrap().name, "two");
    assert!(registry.find_agent("B").is_none());
    assert_eq!(
        registry.get_agent("B").unwrap_err().message(),
        "agent with id \"B\" was not found"
    );
}

#[test]
fn search_looks_at_identifier_name_and_description() {
    let registry = two_agents();
    let ids = |query: &str| -> Vec<String> {
        registry
            .search_agents(query)
            .into_iter()
            .map(|agent| agent.id.clone())
            .collect()
    };
    assert_eq!(ids("agent"), ["alpha", "beta"]);
    assert_eq!(ids("BET"), ["beta"]);
    assert_eq!(ids("second RESULT"), ["beta"]);
    assert_eq!(ids("result"), ["alpha", "beta"]);
    assert_eq!(ids("\u{2003} first\t\n"), ["alpha"]);
    assert_eq!(ids(""), ["alpha", "beta"]);
    assert_eq!(ids(" \t "), ["alpha", "beta"]);
    assert!(ids("gamma").is_empty());
}

#[test]
fn search_finds_agents_by_their_own_texts() {
    let odd = agent(" Odd Id ", "NAME", "Über Ärger", npx("p"));
    let registry = registry(vec![odd.clone()]).unwrap();
    for text in [&odd.id, &odd.name, &odd.description] {
        assert_eq!(registry.search_agents(text).len(), 1);
    }
    // Only ASCII letters are folded.
    assert!(registry.search_agents("über").is_empty());
}

#[test]
fn environment_is_ordered_by_name_and_holds_each_name_once() {
    let mut env = Environment::new();
    for (name, value) in [("b", "1"), ("a", "2"), ("é", "3"), ("aa", "4"), ("b", "5")] {
        env.insert(name.to_string(), value.to_string());
    }
    let held: Vec<(&str, &str)> = env
        .pairs()
        .iter()
        .map(|(name, value)| (name.as_str(), value.as_str()))
        .collect();
    assert_eq!(held, [("a", "2"), ("aa", "4"), ("b", "5"), ("é", "3")]);
    assert_eq!(env.clone(), env);
}
