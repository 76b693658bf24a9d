use acp_agent::commands::list::{list_agents, list_written, write_agent_list, ListError};
use acp_agent::registry::{
    AgentDistribution, PackageDistribution, Registry, RegistryAgent, RegistryError,
};

fn agent(id: &str, name: &str, description: &str, package: &str) -> RegistryAgent {
    RegistryAgent {
        id: id.to_string(),
        name: name.to_string(),
        version: "1.0.0".to_string(),
        description: description.to_string(),
        repository: None,
        website: None,
        authors: vec!["Example".to_string()],
        license: "MIT".to_string(),
        icon: None,
        distribution: AgentDistribution {
            npx: Some(PackageDistribution {
                package: package.to_string(),
                args: None,
                env: None,
            }),
            ..Default::default()
        },
    }
}

fn registry(agents: Vec<RegistryAgent>) -> Registry {
    Registry::from_decoded(Ok(Registry {
        version: "1".to_string(),
        agents,
        extensions: None,
    }))
    .unwrap()
}

#[test]
fn writes_name_id_and_description_for_each_agent() {
    let registry = registry(vec![
        agent("z-agent", "Zulu", "Last agent", "@acme/zulu"),
        agent("a-agent", "Alpha", "First agent", "@acme/alpha"),
    ]);

    assert_eq!(
        write_agent_list(&registry),
        "Alpha\ta-agent\tFirst agent\nZulu\tz-agent\tLast agent\n"
    );
}

#[test]
fn names_are_ordered_whatever_their_case_and_then_identifiers() {
    let registry = registry(vec![
        agent("3", "beta", "a", "p"),
        agent("2", "Beta", "b", "p"),
        agent("1", "BETA", "c", "p"),
        agent("9", "alpha", "d", "p"),
        agent("2", "bETA", "e", "p"),
        agent("0", "Éclair", "f", "p"),
    ]);
    assert_eq!(
        write_agent_list(&registry),
        "alpha\t9\td\nBETA\t1\tc\nBeta\t2\tb\nbETA\t2\te\nbeta\t3\ta\nÉclair\t0\tf\n"
    );
}

#[test]
fn list_agrees_with_a_stable_sort() {
    let mut state: u64 = 88172645463325252;
    let mut next = |n: u64| {
        state ^= state << 13;
        state ^= state >> 7;
        state ^= state << 17;
        state % n
    };
    for _ in 0..60 {
        let mut agents = Vec::new();
        for k in 0..next(12) {
            let name = ["a", "A", "b", "B", "ab", ""][next(6) as usize];
            let id = ["x", "X", "y", ""][next(4) as usize];
            agents.push(agent(id, name, &k.to_string(), "p"));
        }
        let mut sorted: Vec<&RegistryAgent> = agents.iter().collect();
        sorted.sort_by(|a, b| {
            a.name
                .to_ascii_lowercase()
                .cmp(&b.name.to_ascii_lowercase())
                .then_with(|| a.id.cmp(&b.id))
        });
        let expected: String = sorted
            .iter()
            .map(|a| format!("{}\t{}\t{}\n", a.name, a.id, a.description))
            .collect();
        assert_eq!(write_agent_list(&registry(agents.clone())), expected);
    }
}

#[test]
fn empty_registry_has_an_empty_list() {
    assert_eq!(list_agents(Ok(registry(vec![]))).unwrap(), "");
}

#[test]
fn list_failures_keep_what_lies_behind_them() {
    let fetch = RegistryError::Fetch {
        reason: "offline".to_string(),
    };
    let error = list_agents(Err(fetch.clone())).unwrap_err();
    assert_eq!(error, ListError::FetchRegistry(fetch));
    assert_eq!(error.message(), "failed to fetch registry payload: offline");
    assert_eq!(error.source(), "failed to fetch registry payload: offline");

    let error = list_written(Err("broken pipe".to_string())).unwrap_err();
    assert_eq!(error.message(), "Failed to write agent list: broken pipe");
    assert_eq!(error.source(), "broken pipe");
    assert!(list_written(Ok(())).is_ok());
}
