use acp_agent::commands::execute::{
    execute_cli, exit_from_status, signal_exit_code, CliStep, CommandFailure,
};
use acp_agent::commands::install::{InstallMethod, InstallOutcome};
use acp_agent::commands::run::{
    accept_h2_client, binary_prepared, prepare_run_command, run_agent, run_command_h2,
    run_command_ws, run_prepared_command, PreparedCommand, RunMode, RunOptions, RunPreparation,
    RunTransport,
};
use acp_agent::commands::{Cli, CliExit};
use acp_agent::environment::Environment;
use acp_agent::registry::{
    AgentDistribution, BinaryDistribution, BinaryTarget, PackageDistribution, Platform, Registry,
    RegistryAgent,
};
use acp_agent::path::PathStyle;
use acp_agent::runtime::binary::{PreparationFailure, ReadyBinary, TempDirStep};
use acp_agent::runtime::cache::{CacheLookup, CacheNext, CacheStep, StoreError};
use acp_agent::runtime::distribution::PreparedBinary;
use acp_agent::runtime::error::RuntimeError;
use acp_agent::runtime::prepare::{prepare_agent_command, prepare_binary_command, Preparation};
use acp_agent::runtime::process::ProcessStatus;
use acp_agent::runtime::serve::{serve_agent, ServeMode, ServeOptions};
use acp_agent::runtime::stdio::{run_agent_stdio, run_command_stdio};

fn strings(items: &[&str]) -> Vec<String> {
    items.iter().map(|item| item.to_string()).collect()
}

fn env() -> Environment {
    let mut env = Environment::new();
    env.insert("Z".to_string(), "last".to_string());
    env.insert("A".to_string(), "first".to_string());
    env
}

fn env_pairs() -> Vec<(String, String)> {
    vec![
        ("A".to_string(), "first".to_string()),
        ("Z".to_string(), "last".to_string()),
    ]
}

fn package(name: &str) -> PackageDistribution {
    PackageDistribution {
        package: name.to_string(),
        args: Some(strings(&["--acp"])),
        env: Some(env()),
    }
}

fn target() -> BinaryTarget {
    BinaryTarget {
        archive: "https://example.com/a.zip".to_string(),
        cmd: "./bin/agent".to_string(),
        args: Some(strings(&["serve"])),
        env: Some(env()),
    }
}

fn agent(distribution: AgentDistribution) -> RegistryAgent {
    RegistryAgent {
        id: "demo".to_string(),
        name: "Demo".to_string(),
        version: "1".to_string(),
        description: "".to_string(),
        repository: None,
        website: None,
        authors: vec![],
        license: "MIT".to_string(),
        icon: None,
        distribution,
    }
}

fn binary_agent() -> RegistryAgent {
    agent(AgentDistribution {
        binary: Some(BinaryDistribution {
            linux_x86_64: Some(target()),
            ..Default::default()
        }),
        npx: Some(package("@x/npm")),
        uvx: Some(package("x-uv")),
    })
}

fn registry(agents: Vec<RegistryAgent>) -> Registry {
    Registry {
        version: "1".to_string(),
        agents,
        extensions: None,
    }
}

#[test]
fn packages_are_started_with_registry_args_before_user_args() {
    let user = strings(&["--model", "x"]);
    let npx = agent(AgentDistribution {
        npx: Some(package("@x/npm")),
        uvx: Some(package("x-uv")),
        ..Default::default()
    });
    match prepare_agent_command(&npx, &user, "plan9", "mips").ok().unwrap() {
        Preparation::Ready(command) => {
            assert_eq!(command.spec.program, b"npx");
            assert_eq!(command.spec.args, ["@x/npm", "--acp", "--model", "x"]);
            assert_eq!(command.spec.env, env_pairs());
            assert_eq!(command.spec.current_dir, None);
        }
        Preparation::Binary { .. } => panic!("unexpected preparation"),
    }
    let uvx = agent(AgentDistribution {
        uvx: Some(PackageDistribution {
            package: "x-uv".to_string(),
            args: None,
            env: None,
        }),
        ..Default::default()
    });
    match prepare_run_command(&uvx, &user, "linux", "x86_64").ok().unwrap() {
        RunPreparation::Ready(command) => {
            assert_eq!(command.spec.program, b"uvx");
            assert_eq!(command.spec.args, ["x-uv", "--model", "x"]);
            assert!(command.spec.env.is_empty());
            assert_eq!(command.temp_dir, None);
        }
        RunPreparation::Binary(_) => panic!("unexpected preparation"),
    }
}

#[test]
fn binaries_for_the_platform_come_first() {
    let agent = binary_agent();
    match prepare_agent_command(&agent, &[], "linux", "x86_64").ok().unwrap() {
        Preparation::Binary { platform, cache } => {
            assert_eq!(platform, Platform::LinuxX86_64);
            assert_eq!(*cache.job.target, target());
            assert_eq!(cache.job.agent_id, "demo");
            assert_eq!(cache.job.style, PathStyle::Unix);
        }
        Preparation::Ready(_) => panic!("unexpected preparation"),
    }
    assert!(matches!(
        prepare_agent_command(&agent, &[], "macos", "x86_64"),
        Ok(Preparation::Ready(_))
    ));
    // On an unknown platform no binary exists, and the packages are the fallback.
    match prepare_agent_command(&agent, &[], "plan9", "mips").ok().unwrap() {
        Preparation::Ready(command) => {
            assert_eq!(command.spec.program, b"npx");
            assert_eq!(command.spec.args[0], "@x/npm");
        }
        Preparation::Binary { .. } => panic!("unexpected preparation"),
    }
    // The `run` command refuses an unknown platform wherever there are binaries.
    assert_eq!(
        prepare_run_command(&agent, &[], "plan9", "mips")
            .err()
            .unwrap()
            .message(),
        "unsupported platform: plan9-mips"
    );
}

#[test]
fn unknown_platforms_are_refused_without_packages() {
    let mut agent = binary_agent();
    agent.distribution.npx = None;
    match prepare_agent_command(&agent, &[], "plan9", "mips").ok().unwrap() {
        Preparation::Ready(command) => assert_eq!(command.spec.program, b"uvx"),
        Preparation::Binary { .. } => panic!("unexpected preparation"),
    }
    agent.distribution.uvx = None;
    assert_eq!(
        prepare_agent_command(&agent, &[], "plan9", "mips")
            .err()
            .unwrap()
            .message(),
        "unsupported platform: plan9-mips"
    );
}

#[test]
fn agents_without_runnable_distribution_are_reported() {
    let only_elsewhere = agent(AgentDistribution {
        binary: Some(BinaryDistribution::default()),
        ..Default::default()
    });
    assert_eq!(
        prepare_agent_command(&only_elsewhere, &[], "linux", "x86_64")
            .err()
            .unwrap()
            .message(),
        "agent \"demo\" does not have a runnable distribution"
    );
    assert_eq!(
        prepare_run_command(&only_elsewhere, &[], "linux", "x86_64")
            .err()
            .unwrap()
            .message(),
        "agent \"demo\" does not have a runnable distribution"
    );
}

#[test]
fn prepared_binaries_run_where_they_were_extracted() {
    let user = strings(&["u"]);
    let command = prepare_binary_command(
        &target(),
        Ok(PreparedBinary {
            executable_path: b"/c/bin/agent".to_vec(),
            extracted_dir: b"/c".to_vec(),
        }),
        &user,
    )
    .unwrap();
    assert_eq!(command.spec.program, b"/c/bin/agent");
    assert_eq!(command.spec.args, ["serve", "u"]);
    assert_eq!(command.spec.env, env_pairs());
    assert_eq!(command.spec.current_dir, Some(b"/c".to_vec()));
    assert_eq!(
        prepare_binary_command(&target(), Err(RuntimeError::MissingStdout), &user).unwrap_err(),
        RuntimeError::MissingStdout
    );
}

fn cache_step<'a>(agent: &'a RegistryAgent, user: &'a [String], os: &str) -> CacheStep<'a> {
    match prepare_run_command(agent, user, os, "x86_64").ok().unwrap() {
        RunPreparation::Binary(step) => step,
        RunPreparation::Ready(_) => panic!("unexpected preparation"),
    }
}

fn temp_dir_step<'a>(agent: &'a RegistryAgent, user: &'a [String]) -> TempDirStep<'a> {
    match cache_step(agent, user, "linux").looked_up(CacheLookup::Missing) {
        CacheNext::Populate(step) => step,
        CacheNext::Ready(_) => panic!("there is no payload"),
    }
}

fn ready<'a>(step: TempDirStep<'a>, temp_dir: &str) -> ReadyBinary<'a> {
    step.created::<String>(Ok(Ok(temp_dir.as_bytes().to_vec())))
        .ok()
        .unwrap()
        .downloaded::<String>(Ok(format!("{temp_dir}/a.zip").into_bytes()))
        .ok()
        .unwrap()
        .created::<String>(Ok(()))
        .ok()
        .unwrap()
        .extracted::<String>(Ok(()))
        .ok()
        .unwrap()
        .inspected::<String>(Some(true))
        .ok()
        .unwrap()
        .marked::<String>(Ok(()))
        .ok()
        .unwrap()
}

#[test]
fn fresh_payloads_run_from_the_cache() {
    let agent = binary_agent();
    let user = strings(&["u"]);
    let step = cache_step(&agent, &user, "linux");
    assert_eq!(step.record(b"/c"), b"/c/acp-agent/agent-demo/archive-address");
    assert_eq!(
        step.executable(b"/c"),
        b"/c/acp-agent/agent-demo/extracted/bin/agent"
    );
    let address = || Some("https://example.com/a.zip".to_string());
    let lookup = step.judge(b"/c", address(), Some(true));
    assert_eq!(
        lookup,
        CacheLookup::Fresh(PreparedBinary {
            executable_path: b"/c/acp-agent/agent-demo/extracted/bin/agent".to_vec(),
            extracted_dir: b"/c/acp-agent/agent-demo/extracted".to_vec(),
        })
    );
    let CacheNext::Ready(cached) = step.looked_up(lookup) else {
        panic!("the payload is fresh");
    };
    let command = binary_prepared(Ok(Ok(cached))).unwrap();
    assert_eq!(
        command.spec.program,
        b"/c/acp-agent/agent-demo/extracted/bin/agent"
    );
    assert_eq!(command.spec.args, ["serve", "u"]);
    assert_eq!(command.spec.env, env_pairs());
    assert_eq!(command.temp_dir, None);
}

#[test]
fn missing_and_stale_payloads_are_downloaded() {
    let agent = binary_agent();
    let step = || cache_step(&agent, &[], "linux");
    let address = || Some("https://example.com/a.zip".to_string());
    let older = || Some("https://example.com/older.zip".to_string());
    assert_eq!(step().judge(b"/c", None, Some(true)), CacheLookup::Missing);
    assert_eq!(step().judge(b"/c", address(), Some(false)), CacheLookup::Missing);
    assert_eq!(step().judge(b"/c", address(), None), CacheLookup::Missing);
    assert_eq!(step().judge(b"/c", older(), Some(true)), CacheLookup::Stale);
    for lookup in [CacheLookup::Missing, CacheLookup::Stale] {
        match step().looked_up(lookup) {
            CacheNext::Populate(step) => assert_eq!(step.job.target.archive, address().unwrap()),
            CacheNext::Ready(_) => panic!("nothing can be run"),
        }
    }
}

#[test]
fn stored_payloads_are_found_again() {
    let agent = binary_agent();
    let record = ready(temp_dir_step(&agent, &[]), "/t").store_in(Some(b"/c")).ok().unwrap();
    assert_eq!(record.path(), b"/t/archive-address");
    let written = record.address();
    let clear = record.recorded(Ok(())).ok().unwrap();
    assert_eq!(clear.directory(), b"/c/acp-agent/agent-demo");
    let publish = clear.cleared(Ok(())).ok().unwrap();
    assert_eq!(publish.source(), b"/t");
    assert_eq!(publish.destination(), b"/c/acp-agent/agent-demo");
    let cached = publish.published(Ok(())).ok().unwrap();
    let executable = cached.executable();

    let later = cache_step(&agent, &[], "linux");
    assert_eq!(later.executable(b"/c"), executable);
    match later.judge(b"/c", Some(written), Some(true)) {
        CacheLookup::Fresh(payload) => assert_eq!(payload.executable_path, executable),
        other => panic!("unexpected lookup: {other:?}"),
    }
}

#[test]
fn payloads_that_cannot_be_stored_run_where_they_are() {
    let agent = binary_agent();
    let why = || "why".to_string();
    let start = || ready(temp_dir_step(&agent, &[]), "/t");
    let record = || start().store_in(Some(b"/c")).ok().unwrap();
    let clear = || record().recorded(Ok(())).ok().unwrap();
    let publish = || clear().cleared(Ok(())).ok().unwrap();
    let failures = [
        (
            start().store_in(None).err().unwrap(),
            "could not determine the current user's cache directory",
            None,
        ),
        (
            record().recorded(Err(why())).err().unwrap(),
            "failed to write /t/archive-address",
            Some(why()),
        ),
        (
            clear().cleared(Err(why())).err().unwrap(),
            "failed to clear /c/acp-agent/agent-demo",
            Some(why()),
        ),
        (
            publish().published(Err(why())).err().unwrap(),
            "failed to move the payload to /c/acp-agent/agent-demo",
            Some(why()),
        ),
    ];
    for (failure, message, cause) in failures {
        assert_eq!(failure.error.message(), message);
        assert_eq!(failure.error.cause(), cause);
        let command = binary_prepared(Ok(Err(failure))).unwrap();
        assert_eq!(command.spec.program, b"/t/extracted/bin/agent");
        assert_eq!(command.temp_dir, Some(b"/t".to_vec()));
    }
    assert_ne!(
        StoreError::NoCacheDirectory,
        StoreError::Clear {
            path: "p".to_string(),
            cause: why()
        }
    );
}

#[test]
fn cache_entries_lie_in_the_cache() {
    let mut agent = binary_agent();
    agent.id = "../x:y é".to_string();
    assert_eq!(
        cache_step(&agent, &[], "linux").record(b"/c"),
        b"/c/acp-agent/agent-___x_y__/archive-address"
    );
    agent.distribution.binary = Some(BinaryDistribution {
        windows_x86_64: Some(target()),
        ..Default::default()
    });
    agent.id = "demo".to_string();
    let step = cache_step(&agent, &[], "windows");
    assert_eq!(
        step.record(b"C:\\c"),
        b"C:\\c\\acp-agent\\agent-demo\\archive-address"
    );
    assert_eq!(
        step.executable(b"C:\\c"),
        b"C:\\c\\acp-agent\\agent-demo\\extracted\\bin/agent"
    );
}

#[test]
fn archives_go_through_every_step() {
    let agent = binary_agent();
    let user = strings(&["u"]);
    let download = temp_dir_step(&agent, &user)
        .created::<String>(Ok(Ok(b"/tmp/t".to_vec())))
        .ok()
        .unwrap();
    assert_eq!(download.job.target.archive, "https://example.com/a.zip");
    assert_eq!(download.temp_dir, b"/tmp/t");
    let directory = download
        .downloaded::<String>(Ok(b"/tmp/t/a.zip".to_vec()))
        .ok()
        .unwrap();
    assert_eq!(directory.directory(), b"/tmp/t/extracted");
    let extract = directory.created::<String>(Ok(())).ok().unwrap();
    assert_eq!(extract.archive_path, b"/tmp/t/a.zip");
    assert_eq!(extract.directory(), b"/tmp/t/extracted");
    let inspect = extract.extracted::<String>(Ok(())).ok().unwrap();
    assert_eq!(inspect.executable(), b"/tmp/t/extracted/bin/agent");
    let permission = inspect.inspected::<String>(Some(true)).ok().unwrap();
    assert_eq!(permission.executable(), b"/tmp/t/extracted/bin/agent");
    let unstored = permission.marked(Ok(())).map(|ready| Err(ready.store_in(None).err().unwrap()));
    let command = binary_prepared(unstored).unwrap();
    assert_eq!(command.spec.program, b"/tmp/t/extracted/bin/agent");
    assert_eq!(command.spec.args, ["serve", "u"]);
    assert_eq!(command.spec.env, env_pairs());
    assert_eq!(command.spec.current_dir, Some(b"/tmp/t/extracted".to_vec()));
    assert_eq!(command.temp_dir, Some(b"/tmp/t".to_vec()));
}

#[test]
fn every_step_of_an_archive_has_its_failure() {
    let agent = binary_agent();
    let why = || "why".to_string();
    let message = |failure: PreparationFailure<String>| -> String {
        binary_prepared(Err(failure)).unwrap_err().message()
    };
    let download = || {
        temp_dir_step(&agent, &[])
            .created::<String>(Ok(Ok(b"/t".to_vec())))
            .ok()
            .unwrap()
    };
    let directory = || download().downloaded::<String>(Ok(b"/t/a".to_vec())).ok().unwrap();
    let extract = || directory().created::<String>(Ok(())).ok().unwrap();
    let inspect = || extract().extracted::<String>(Ok(())).ok().unwrap();
    let permission = || inspect().inspected::<String>(Some(true)).ok().unwrap();

    assert_eq!(
        message(temp_dir_step(&agent, &[]).created(Err(why())).err().unwrap()),
        "failed to create temporary directory task"
    );
    assert_eq!(
        message(temp_dir_step(&agent, &[]).created(Ok(Err(why()))).err().unwrap()),
        "failed to create temporary directory"
    );
    assert_eq!(message(download().downloaded(Err(why())).err().unwrap()), "why");
    assert_eq!(
        message(directory().created(Err(why())).err().unwrap()),
        "failed to create /t/extracted"
    );
    assert_eq!(message(extract().extracted(Err(why())).err().unwrap()), "why");
    for found in [Some(false), None] {
        assert_eq!(
            message(inspect().inspected(found).err().unwrap()),
            "downloaded https://example.com/a.zip, but could not find \"./bin/agent\" at \
             /t/extracted/bin/agent"
        );
    }
    let error = binary_prepared(Err(permission().marked(Err(why())).err().unwrap())).unwrap_err();
    assert_eq!(error.message(), "failed to mark /t/extracted/bin/agent executable");
    assert_eq!(error.cause(), Some(why()));
}

#[test]
fn unknown_agents_are_not_resolved() {
    let registry = registry(vec![binary_agent()]);
    let expected = "failed to resolve agent \"nope\" from registry";
    let error = run_agent(&registry, "nope", &[], "linux", "x86_64").err().unwrap();
    assert_eq!(error.message(), expected);
    assert_eq!(
        error.cause(),
        Some("agent with id \"nope\" was not found".to_string())
    );
    assert_eq!(
        run_agent_stdio(&registry, "nope", &[], "linux", "x86_64")
            .err()
            .unwrap()
            .message(),
        expected
    );
    let mode = ServeMode::Tcp {
        host: "h".to_string(),
        port: 1,
    };
    assert_eq!(
        serve_agent(
            &registry,
            "nope",
            ServeOptions { mode: mode.clone() },
            &[],
            "linux",
            "x86_64"
        )
        .err()
        .unwrap()
        .message(),
        expected
    );
    let (command, picked) = serve_agent(
        &registry,
        "demo",
        ServeOptions { mode: mode.clone() },
        &[],
        "macos",
        "x86_64",
    )
    .ok()
    .unwrap();
    assert_eq!(command.agent.id, "demo");
    assert_eq!(picked, mode);
    assert!(matches!(command.preparation, Preparation::Ready(_)));
    let (command, picked) =
        acp_agent::commands::serve::serve_agent(&registry, "demo", mode.clone(), &[], "linux", "x86_64")
            .ok()
            .unwrap();
    assert!(matches!(command.preparation, Preparation::Binary { .. }));
    assert_eq!(picked, mode);
}

#[test]
fn options_decide_how_a_command_is_run() {
    let options = |transport| RunOptions {
        transport,
        host: "h".to_string(),
        port: 7,
    };
    assert!(matches!(
        run_prepared_command(options(RunTransport::Stdio)),
        RunMode::Terminal
    ));
    match run_prepared_command(options(RunTransport::Http)) {
        RunMode::Http { host, port } => assert_eq!((host.as_str(), port), ("h", 7)),
        _ => panic!("unexpected mode"),
    }
    match run_prepared_command(options(RunTransport::Ws)) {
        RunMode::Ws { host, port } => assert_eq!((host.as_str(), port), ("h", 7)),
        _ => panic!("unexpected mode"),
    }
}

#[test]
fn terminal_commands_share_the_streams_of_the_caller() {
    let command = PreparedCommand {
        spec: acp_agent::runtime::prepare::CommandSpec {
            program: b"sh".to_vec(),
            args: strings(&["-c", "true"]),
            env: env_pairs(),
            current_dir: Some(b"/d".to_vec()),
        },
        temp_dir: None,
    };
    let step = || run_command_stdio(&command.spec, "demo");
    let plan = step().plan;
    assert_eq!(plan.command.program, b"sh");
    assert_eq!(plan.command.args, ["-c", "true"]);
    assert_eq!(plan.command.env, env_pairs());
    assert_eq!(plan.command.current_dir, Some(b"/d".to_vec()));
    let status = ProcessStatus {
        code: Some(3),
        signal: None,
    };
    assert_eq!(step().finished(Ok(status)), Ok(status));
    let error = step().finished(Err("gone".to_string())).unwrap_err();
    assert_eq!(error.message(), "failed to run sh for demo");
    assert_eq!(error.cause(), Some("gone".to_string()));
}

#[test]
fn listeners_are_announced() {
    let http = run_command_h2("demo", "127.0.0.1", 0, Ok(("L", Some("127.0.0.1:9".to_string()))))
        .ok()
        .unwrap();
    assert_eq!(
        http.line,
        "Running demo over http://127.0.0.1:9 (HTTP/2 stream transport)"
    );
    assert_eq!(http.bound.listener, "L");
    let ws = run_command_ws("demo", "::1", 80, Ok(("L", None))).ok().unwrap();
    assert_eq!(
        ws.line,
        "Running demo over ws://host=::1, port=80 (jsonrpsee WebSocket transport)"
    );
    assert_eq!(
        run_command_ws::<()>("demo", "::1", 80, Err("in use".to_string()))
            .err()
            .unwrap()
            .message(),
        "failed to bind HTTP listener on host=::1, port=80"
    );
    assert_eq!(
        accept_h2_client::<()>("127.0.0.1:9", Err("reset".to_string()))
            .unwrap_err()
            .message(),
        "failed to accept HTTP connection on 127.0.0.1:9"
    );
}

fn exited(code: i32) -> ProcessStatus {
    ProcessStatus {
        code: Some(code),
        signal: None,
    }
}

#[test]
fn exit_from_status_returns_success_for_zero_exit() {
    assert_eq!(exit_from_status(exited(0)), CliExit::Success);
}

#[test]
fn exit_from_status_returns_process_code_for_non_zero_exit() {
    assert_eq!(exit_from_status(exited(5)), CliExit::Code(5));
}

#[test]
fn exit_from_status_returns_signal_convention_for_signal_exit() {
    let signalled = ProcessStatus {
        code: None,
        signal: Some(15),
    };
    assert_eq!(exit_from_status(signalled), CliExit::Code(143));
    let neither = ProcessStatus {
        code: None,
        signal: None,
    };
    assert_eq!(signal_exit_code(neither), 1);
    assert_eq!(exit_from_status(neither), CliExit::Code(1));
}

fn step(args: &[&str]) -> CliStep {
    execute_cli(Cli::try_parse_from(args).unwrap())
}

#[test]
fn commands_fail_with_what_was_attempted() {
    let why = || "why".to_string();
    let CliStep::List(list) = step(&["acp-agent", "list"]) else {
        panic!("unexpected step");
    };
    assert_eq!(
        list.finished(Err(why())).unwrap_err().message(),
        "failed to list registry agents"
    );
    let CliStep::Search(search) = step(&["acp-agent", "search", "x"]) else {
        panic!("unexpected step");
    };
    assert_eq!(
        search.finished(Err(why())).unwrap_err().message(),
        "failed to search registry agents for \"x\""
    );
    let CliStep::InstallEnv(install_env) = step(&["acp-agent", "install-env", "-y"]) else {
        panic!("unexpected step");
    };
    assert!(install_env.yes);
    assert_eq!(
        install_env.finished(Err(why())).unwrap_err().message(),
        "failed to install environment dependencies"
    );
    let CliStep::Install(install) = step(&["acp-agent", "install", "x"]) else {
        panic!("unexpected step");
    };
    let failure = install.installed(Err(why())).err().unwrap();
    assert_eq!(failure.message(), "failed to install agent \"x\"");
    assert_eq!(
        failure,
        CommandFailure::Install {
            agent_id: "x".to_string(),
            cause: why()
        }
    );
    let CliStep::Run(run) = step(&["acp-agent", "run", "x", "y"]) else {
        panic!("unexpected step");
    };
    assert_eq!(
        run.finished(Err(why())).unwrap_err().message(),
        "failed to run agent \"x\""
    );
}

#[test]
fn commands_that_succeed_exit_accordingly() {
    let CliStep::List(list) = step(&["acp-agent", "list"]) else {
        panic!("unexpected step");
    };
    assert_eq!(list.finished(Ok(())), Ok(CliExit::Success));
    let CliStep::Install(install) = step(&["acp-agent", "install", "x"]) else {
        panic!("unexpected step");
    };
    let write = install
        .installed(Ok(InstallOutcome::PackageManager {
            agent_id: "x".to_string(),
            method: InstallMethod::Uvx,
            package: "p".to_string(),
        }))
        .ok()
        .unwrap();
    assert_eq!(write.line, "Installed x via uv: p");
    assert_eq!(write.output(), "Installed x via uv: p\n");
    assert_eq!(write.written(Ok(())), Ok(CliExit::Success));
    let CliStep::Install(install) = step(&["acp-agent", "install", "x"]) else {
        panic!("unexpected step");
    };
    let write = install
        .installed(Ok(InstallOutcome::Binary {
            agent_id: "x".to_string(),
            path: b"/b/x".to_vec(),
        }))
        .ok()
        .unwrap();
    assert_eq!(write.output(), "Installed x to /b/x\n");
    assert_eq!(
        write.written(Err("closed".to_string())).unwrap_err().message(),
        "closed"
    );
    let CliStep::Run(run) = step(&["acp-agent", "run", "--host=h", "x", "--port=7", "y"]) else {
        panic!("unexpected step");
    };
    assert_eq!(run.options.host, "h");
    assert_eq!(run.options.port, 7);
    assert_eq!(run.options.transport, RunTransport::Stdio);
    assert_eq!(run.args, ["y"]);
    assert_eq!(run.finished(Ok(exited(23))), Ok(CliExit::Code(23)));
}

#[test]
fn install_command_writes_one_line() {
    let CliStep::Install(install) = step(&["acp-agent", "install", "demo-agent"]) else {
        panic!("unexpected step");
    };
    let write = install
        .installed(Ok(InstallOutcome::PackageManager {
            agent_id: "demo-agent".to_string(),
            method: InstallMethod::Npx,
            package: "@acme/demo".to_string(),
        }))
        .ok()
        .unwrap();
    assert_eq!(
        write.output().as_bytes(),
        b"Installed demo-agent via npm: @acme/demo\n"
    );
}

#[test]
fn paths_need_not_be_utf8() {
    let agent = binary_agent();
    let record = step_into(&agent).store_in(Some(b"/c\xff")).ok().unwrap();
    assert_eq!(record.path(), b"/t\xfe/archive-address");
    let failed = record.recorded(Err("full".to_string())).err().unwrap();
    assert_eq!(failed.error.message(), "failed to write /t\u{fffd}/archive-address");
    let command = binary_prepared(Ok(Err(failed))).unwrap();
    assert_eq!(command.spec.program, b"/t\xfe/extracted/bin/agent");
    assert_eq!(command.spec.current_dir, Some(b"/t\xfe/extracted".to_vec()));
    assert_eq!(command.temp_dir, Some(b"/t\xfe".to_vec()));
    let error = run_command_stdio(&command.spec, "demo")
        .finished(Err("gone".to_string()))
        .unwrap_err();
    assert_eq!(
        error.message(),
        "failed to run /t\u{fffd}/extracted/bin/agent for demo"
    );

    let publish = step_into(&agent)
        .store_in(Some(b"/c\xff"))
        .ok()
        .unwrap()
        .recorded(Ok(()))
        .ok()
        .unwrap()
        .cleared(Ok(()))
        .ok()
        .unwrap();
    assert_eq!(publish.source(), b"/t\xfe");
    assert_eq!(publish.destination(), b"/c\xff/acp-agent/agent-demo");
    let cached = publish.published(Ok(())).ok().unwrap();
    assert_eq!(
        cached.executable(),
        b"/c\xff/acp-agent/agent-demo/extracted/bin/agent"
    );
}

fn step_into<'a>(agent: &'a RegistryAgent) -> ReadyBinary<'a> {
    temp_dir_step(agent, &[])
        .created::<String>(Ok(Ok(b"/t\xfe".to_vec())))
        .ok()
        .unwrap()
        .downloaded::<String>(Ok(b"/t\xfe/a.zip".to_vec()))
        .ok()
        .unwrap()
        .created::<String>(Ok(()))
        .ok()
        .unwrap()
        .extracted::<String>(Ok(()))
        .ok()
        .unwrap()
        .inspected::<String>(Some(true))
        .ok()
        .unwrap()
        .marked::<String>(Ok(()))
        .ok()
        .unwrap()
}
