use acp_agent::archive::commands::install::{InstallError, IoError, IoErrorKind};
use acp_agent::archive::commands::run::{
    binary_prepared, run_agent, run_command_interactive, PreparationCause, RunError,
    RunPreparation,
};
use acp_agent::archive::commands::serve::{
    bind_listener, child_pipes, child_spawned, forward_reader_to_socket, forwarded, serve_agent,
    serve_prepared_command, serve_single_connection, serving_line, terminate_child, BridgeEvent,
    BridgeStep, ChildNext, ForwardStep, ServeError, Termination,
};
use acp_agent::registry::{
    AgentDistribution, PackageDistribution, Registry, RegistryAgent, RegistryError,
};
use acp_agent::runtime::binary::PreparationFailure;
use acp_agent::runtime::prepare::CommandSpec;
use acp_agent::runtime::process::ProcessStatus;

fn io(message: &str) -> IoError {
    IoError {
        kind: IoErrorKind::Other,
        message: message.to_string(),
    }
}

fn status(code: i32) -> ProcessStatus {
    ProcessStatus {
        code: Some(code),
        signal: None,
    }
}

#[test]
fn run_error_preserves_source_chain() {
    let serve_error = ServeError::Run(RunError::Io(io("boom")));

    let run_source = serve_error.source().expect("missing RunError source");
    assert_eq!(run_source.message(), "I/O failed: boom");

    let run_error = match run_source {
        acp_agent::archive::commands::run::ErrorSource::Run(error) => error,
        _ => panic!("unexpected source"),
    };
    let io_source = run_error.source().expect("missing io::Error source");
    assert_eq!(io_source.message(), "boom");
}

#[test]
fn install_errors_become_run_errors() {
    let text = |s: &str| s.to_string();
    let not_found = RegistryError::AgentNotFound { id: text("x") };
    for (install, message, has_source) in [
        (
            InstallError::FetchRegistry(RegistryError::Fetch { reason: text("r") }),
            "failed to fetch registry payload: r",
            false,
        ),
        (
            InstallError::AgentNotFound(not_found),
            "agent with id \"x\" was not found",
            false,
        ),
        (
            InstallError::UnsupportedPlatform(RegistryError::UnsupportedPlatform {
                os: text("o"),
                arch: text("a"),
            }),
            "unsupported platform: o-a",
            false,
        ),
        (
            InstallError::UnavailableDistribution { agent_id: text("x") },
            "Agent \"x\" does not have a runnable distribution",
            false,
        ),
        (
            InstallError::InvalidArchiveUrl(text("u")),
            "Invalid archive URL: u",
            false,
        ),
        (
            InstallError::InvalidCommandPath(text("c")),
            "Invalid binary command path: c",
            false,
        ),
        (
            InstallError::BinaryNotFound {
                archive: text("a"),
                cmd: text("c"),
                resolved_path: text("p"),
            },
            "Downloaded a, but could not find \"c\" at p",
            false,
        ),
        (
            InstallError::UnsupportedArchiveFormat(text("p")),
            "Unsupported archive format for p",
            false,
        ),
        (
            InstallError::UnsafeArchiveEntry(text("../p")),
            "Archive contains unsafe path: ../p",
            false,
        ),
        (
            InstallError::Request(text("e")),
            "Network request failed: e",
            true,
        ),
        (InstallError::Io(io("e")), "I/O failed: e", true),
        (InstallError::Zip(text("e")), "ZIP extraction failed: e", true),
        (InstallError::Join(text("e")), "Blocking task failed: e", true),
        (
            InstallError::MissingHomeDirectory,
            "I/O failed: Could not determine the current user's home directory",
            true,
        ),
        (
            InstallError::CommandIo {
                program: text("p"),
                source: io("e"),
            },
            "Failed to run p for command: e",
            true,
        ),
        (
            InstallError::CommandFailed {
                program: text("p"),
                subject: text("s"),
                detail: text("d"),
            },
            "Failed to run p for s: d: command failed",
            true,
        ),
    ] {
        let run = RunError::from_install(install);
        assert_eq!(run.message(), message);
        assert_eq!(run.source().is_some(), has_source, "{message}");
    }
    match RunError::from_install(InstallError::MissingHomeDirectory) {
        RunError::Io(error) => assert_eq!(error.kind, IoErrorKind::NotFound),
        other => panic!("unexpected error: {other:?}"),
    }
}

fn registry() -> Registry {
    Registry {
        version: "1".to_string(),
        agents: vec![RegistryAgent {
            id: "demo".to_string(),
            name: "Demo".to_string(),
            version: "1".to_string(),
            description: "".to_string(),
            repository: None,
            website: None,
            authors: vec![],
            license: "MIT".to_string(),
            icon: None,
            distribution: AgentDistribution {
                npx: Some(PackageDistribution {
                    package: "@x/npm".to_string(),
                    args: None,
                    env: None,
                }),
                ..Default::default()
            },
        }],
        extensions: None,
    }
}

#[test]
fn agents_are_looked_up_and_prepared() {
    let registry = registry();
    let user = vec!["u".to_string()];
    let (agent, preparation) = run_agent(Ok(&registry), "demo", &user, "linux", "x86_64")
        .ok()
        .unwrap();
    assert_eq!(agent.id, "demo");
    match preparation {
        RunPreparation::Ready(command) => {
            assert_eq!(command.spec.program, b"npx");
            assert_eq!(command.spec.args, ["@x/npm", "u"]);
        }
        RunPreparation::Binary(_) => panic!("unexpected preparation"),
    }
    assert_eq!(
        run_agent(Ok(&registry), "nope", &user, "linux", "x86_64")
            .err()
            .unwrap()
            .message(),
        "agent with id \"nope\" was not found"
    );
    let offline = RegistryError::Fetch {
        reason: "offline".to_string(),
    };
    assert_eq!(
        run_agent(Err(offline.clone()), "demo", &user, "linux", "x86_64")
            .err()
            .unwrap(),
        RunError::FetchRegistry(offline.clone())
    );
    assert_eq!(
        serve_agent(Err(offline.clone()), "demo", &user, "linux", "x86_64")
            .err()
            .unwrap(),
        ServeError::Run(RunError::FetchRegistry(offline))
    );
    assert!(serve_agent(Ok(&registry), "demo", &user, "linux", "x86_64").is_ok());
}

#[test]
fn preparation_failures_keep_their_kind() {
    let failed = |failure| binary_prepared(Err(failure)).unwrap_err();
    assert_eq!(
        failed(PreparationFailure::TempDirTask(PreparationCause::Join("j".to_string()))),
        RunError::Join("j".to_string())
    );
    assert_eq!(
        failed(PreparationFailure::TempDir(PreparationCause::Io(io("i")))),
        RunError::Io(io("i"))
    );
    assert_eq!(
        failed(PreparationFailure::Download(PreparationCause::Install(
            InstallError::Request("r".to_string())
        ))),
        RunError::Request("r".to_string())
    );
    assert_eq!(
        failed(PreparationFailure::MissingExecutable {
            archive: "a".to_string(),
            cmd: "c".to_string(),
            path: "p".to_string(),
        }),
        RunError::BinaryNotFound {
            archive: "a".to_string(),
            cmd: "c".to_string(),
            resolved_path: "p".to_string(),
        }
    );
}

#[test]
fn interactive_failures_name_program_and_subject() {
    let spec = CommandSpec {
        program: b"npx".to_vec(),
        args: vec![],
        env: vec![],
        current_dir: None,
    };
    assert_eq!(
        run_command_interactive(&spec, "demo", Ok(status(23))),
        Ok(status(23))
    );
    assert_eq!(
        run_command_interactive(&spec, "demo", Err(io("gone"))).unwrap_err().message(),
        "Failed to run npx for demo: gone"
    );
}

#[test]
fn serving_failures_are_described() {
    let bound = bind_listener("::1", 0, Ok(("L", Some("[::1]:9".to_string())))).ok().unwrap();
    assert_eq!(bound.display_address, "[::1]:9");
    let unnamed = bind_listener("::1", 0, Ok(("L", None))).ok().unwrap();
    assert_eq!(unnamed.display_address, "host=::1, port=0");
    assert_eq!(
        bind_listener::<()>("::1", 0, Err(io("in use"))).err().unwrap().message(),
        "Failed to bind TCP listener on host=::1, port=0: in use"
    );
    assert_eq!(serving_line("demo", "[::1]:9"), "Serving demo on tcp://[::1]:9");
    assert_eq!(serve_single_connection("a".to_string(), Ok(1)), Ok(1));
    assert_eq!(
        serve_single_connection::<()>("a".to_string(), Err(io("e"))).unwrap_err().message(),
        "Failed to accept TCP connection on a: e"
    );
    assert_eq!(
        child_spawned::<()>(b"sh", Err(io("e"))).unwrap_err().message(),
        "Failed to spawn sh: e"
    );
    assert_eq!(
        child_pipes::<(), ()>(None, None).unwrap_err().message(),
        "Child process missing piped stdin"
    );
    assert_eq!(
        child_pipes::<(), ()>(Some(()), None).unwrap_err().message(),
        "Child process missing piped stdout"
    );
    assert!(child_pipes::<(), ()>(None, None).unwrap_err().source().is_none());
    assert_eq!(child_pipes(Some(1), Some(2)), Ok((1, 2)));
    assert_eq!(
        ServeError::Join("j".to_string()).message(),
        "Task join failed: j"
    );
    assert_eq!(
        ServeError::ChildWait(io("e")).message(),
        "Failed while waiting on child process: e"
    );
}

#[test]
fn bridges_end_with_the_process() {
    let stdout = || match serve_prepared_command(BridgeEvent::ChildExited(Ok(status(23)))) {
        BridgeStep::AbortStdinAndAwaitStdout(step) => step,
        _ => panic!("the output was not awaited"),
    };
    assert_eq!(stdout().joined(Ok(Ok(()))), Ok(status(23)));
    assert_eq!(
        stdout().joined(Ok(Err(ServeError::BridgeIo(io("e"))))),
        Err(ServeError::BridgeIo(io("e")))
    );
    assert_eq!(
        stdout().joined(Err("j".to_string())),
        Err(ServeError::Join("j".to_string()))
    );
    match serve_prepared_command(BridgeEvent::ChildExited(Err(io("e")))) {
        BridgeStep::Finished(ended) => assert_eq!(ended, Err(ServeError::ChildWait(io("e")))),
        _ => panic!("the service went on"),
    }
    let child = || match serve_prepared_command(BridgeEvent::StdoutEnded(Ok(Ok(())))) {
        BridgeStep::AwaitChild(step) => step,
        _ => panic!("the end was not awaited"),
    };
    match child().waited(Ok(status(0))) {
        ChildNext::Finished(ended) => assert_eq!(ended, Ok(status(0))),
        ChildNext::AwaitStdout(_) => panic!("the output has ended"),
    }
    match child().waited(Err(io("e"))) {
        ChildNext::Finished(ended) => assert_eq!(ended, Err(ServeError::ChildWait(io("e")))),
        ChildNext::AwaitStdout(_) => panic!("the output has ended"),
    }
    match serve_prepared_command(BridgeEvent::StdinEnded(Ok(Ok(())))) {
        BridgeStep::AwaitChild(step) => {
            assert!(matches!(step.waited(Ok(status(0))), ChildNext::AwaitStdout(_)))
        }
        _ => panic!("the end was not awaited"),
    }
}

#[test]
fn bridge_failures_end_the_process() {
    let bridge = || ServeError::BridgeIo(io("broken pipe"));
    match serve_prepared_command(BridgeEvent::StdinEnded(Ok(Err(bridge())))) {
        BridgeStep::AbortStdoutAndTerminate(step) => assert_eq!(
            step.abort_task_and_terminate_child(Ok(())).message(),
            "TCP bridge failed: broken pipe"
        ),
        _ => panic!("the process was left running"),
    }
    match serve_prepared_command(BridgeEvent::StdinEnded(Err("j".to_string()))) {
        BridgeStep::AbortStdoutAndTerminate(step) => assert_eq!(
            step.abort_task_and_terminate_child(Ok(())),
            ServeError::Join("j".to_string())
        ),
        _ => panic!("the process was left running"),
    }
    match serve_prepared_command(BridgeEvent::StdoutEnded(Ok(Err(bridge())))) {
        BridgeStep::AbortStdinAndTerminate(step) => assert_eq!(
            step.abort_task_and_terminate_child(Err(ServeError::ChildWait(io("e")))),
            ServeError::ChildWait(io("e"))
        ),
        _ => panic!("the process was left running"),
    }
    match serve_prepared_command(BridgeEvent::StdoutEnded(Err("j".to_string()))) {
        BridgeStep::Finished(ended) => assert_eq!(ended, Err(ServeError::Join("j".to_string()))),
        _ => panic!("the service went on"),
    }
}

#[test]
fn only_running_bridged_processes_are_killed() {
    match terminate_child(Ok(Some(status(1)))) {
        Termination::Ended(ended) => assert_eq!(ended, Ok(())),
        Termination::Kill(_) => panic!("the process has ended"),
    }
    match terminate_child(Err(io("e"))) {
        Termination::Ended(ended) => assert_eq!(ended, Err(ServeError::ChildWait(io("e")))),
        Termination::Kill(_) => panic!("nothing is known of the process"),
    }
    let kill = || match terminate_child(Ok(None)) {
        Termination::Kill(step) => step,
        Termination::Ended(_) => panic!("the process is running"),
    };
    assert_eq!(kill().killed(Ok(Ok(status(0)))), Ok(()));
    assert_eq!(
        kill().killed(Ok(Err(io("e")))),
        Err(ServeError::ChildWait(io("e")))
    );
    assert_eq!(
        kill().killed(Err(io("e"))),
        Err(ServeError::ChildWait(io("e")))
    );
}

#[test]
fn bytes_are_forwarded_until_the_end() {
    match forward_reader_to_socket(Ok(b"before-exit\n".to_vec())) {
        ForwardStep::Write(bytes) => assert_eq!(bytes, b"before-exit\n"),
        ForwardStep::Finished(_) => panic!("bytes were dropped"),
    }
    match forward_reader_to_socket(Ok(vec![])) {
        ForwardStep::Finished(ended) => assert_eq!(ended, Ok(())),
        ForwardStep::Write(_) => panic!("nothing was read"),
    }
    match forward_reader_to_socket(Err(io("e"))) {
        ForwardStep::Finished(ended) => assert_eq!(ended, Err(ServeError::BridgeIo(io("e")))),
        ForwardStep::Write(_) => panic!("nothing was read"),
    }
    assert_eq!(forwarded(Ok(())), Ok(()));
    assert_eq!(forwarded(Err(io("e"))), Err(ServeError::BridgeIo(io("e"))));
}
