use acp_agent::runtime::error::RuntimeError;
use acp_agent::runtime::prepare::CommandSpec;
use acp_agent::runtime::process::{
    apply_command_spec, spawn_stream_child, terminate_child, AfterTermination, CommandLine,
    ProcessStatus, Termination, Wiring,
};

fn spec(current_dir: Option<&str>) -> CommandSpec {
    CommandSpec {
        program: b"sh".to_vec(),
        args: vec!["-c".to_string(), "cat".to_string()],
        env: vec![("K".to_string(), "V".to_string())],
        current_dir: current_dir.map(|dir| dir.as_bytes().to_vec()),
    }
}

fn status(code: i32) -> ProcessStatus {
    ProcessStatus {
        code: Some(code),
        signal: None,
    }
}

#[test]
fn specs_are_added_to_a_command_line() {
    let mut line = CommandLine::new(b"env");
    line.args.push("-i".to_string());
    line.current_dir = Some(b"/before".to_vec());
    apply_command_spec(&mut line, &spec(None));
    assert_eq!(line.program, b"env");
    assert_eq!(line.args, ["-i", "-c", "cat"]);
    assert_eq!(line.env, [("K".to_string(), "V".to_string())]);
    assert_eq!(line.current_dir, Some(b"/before".to_vec()));
    apply_command_spec(&mut line, &spec(Some("/after")));
    assert_eq!(line.args, ["-i", "-c", "cat", "-c", "cat"]);
    assert_eq!(line.current_dir, Some(b"/after".to_vec()));
}

#[test]
fn served_processes_have_pipes() {
    let step = || spawn_stream_child(&spec(None), "demo-agent");
    let plan = step().plan;
    assert_eq!(plan.command.program, b"sh");
    assert_eq!(plan.command.args, ["-c", "cat"]);
    assert_eq!(
        (plan.stdin, plan.stdout, plan.stderr),
        (Wiring::Piped, Wiring::Piped, Wiring::Inherit)
    );
    let started = step()
        .spawned::<_, _, _>(Ok(("child", Some("in"), Some("out"))))
        .ok()
        .unwrap();
    assert_eq!(
        (started.child, started.stdin, started.stdout),
        ("child", "in", "out")
    );
    let message = |outcome: Result<((), Option<()>, Option<()>), String>| -> String {
        step().spawned(outcome).err().unwrap().message()
    };
    assert_eq!(
        message(Err("no such file".to_string())),
        "failed to spawn sh for demo-agent"
    );
    assert_eq!(
        message(Ok(((), None, Some(())))),
        "child process missing piped stdin"
    );
    assert_eq!(message(Ok(((), None, None))), "child process missing piped stdin");
    assert_eq!(
        message(Ok(((), Some(()), None))),
        "child process missing piped stdout"
    );
}

#[test]
fn only_running_processes_are_killed() {
    match terminate_child(Ok(Some(status(4)))) {
        Termination::Ended(ended) => assert_eq!(ended, Ok(status(4))),
        Termination::Kill(_) => panic!("the process has ended"),
    }
    match terminate_child(Err("lost".to_string())) {
        Termination::Ended(ended) => {
            let error = ended.unwrap_err();
            assert_eq!(error.message(), "failed while checking child process status");
            assert_eq!(error.cause(), Some("lost".to_string()));
        }
        Termination::Kill(_) => panic!("nothing is known of the process"),
    }
    let kill = || match terminate_child(Ok(None)) {
        Termination::Kill(step) => step,
        Termination::Ended(_) => panic!("the process is running"),
    };
    assert_eq!(
        kill().killed(Err("denied".to_string())).err().unwrap().message(),
        "failed to terminate child process"
    );
    let wait = || kill().killed(Ok(())).ok().unwrap();
    assert_eq!(
        wait().waited(Err("lost".to_string())).unwrap_err().message(),
        "failed while waiting on child process"
    );
    let signalled = ProcessStatus {
        code: None,
        signal: Some(9),
    };
    assert_eq!(wait().waited(Ok(signalled)), Ok(signalled));
}

#[test]
fn failures_outlive_the_termination_they_led_to() {
    let report = || AfterTermination::Report;
    assert_eq!(report().conclude(Ok(status(0))), Ok(status(0)));
    assert_eq!(
        report().conclude(Err(RuntimeError::MissingStdin)),
        Err(RuntimeError::MissingStdin)
    );
    let fail = || AfterTermination::Fail(RuntimeError::MissingStdout);
    assert_eq!(
        fail().conclude(Ok(status(0))),
        Err(RuntimeError::MissingStdout)
    );
    assert_eq!(
        fail().conclude(Err(RuntimeError::MissingStdin)),
        Err(RuntimeError::MissingStdout)
    );
}

#[test]
fn success_is_exit_code_zero() {
    assert!(status(0).success());
    assert!(!status(1).success());
    assert!(!ProcessStatus {
        code: None,
        signal: Some(15)
    }
    .success());
}
