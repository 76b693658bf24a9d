use acp_agent::runtime::error::RuntimeError;
use acp_agent::runtime::process::ProcessStatus;
use acp_agent::runtime::transports::rpc::{
    serve_rpc_connection, stdin_closed, stream_stdout_subscription, ws_internal_error, CloseStdin,
    RpcEvent, RpcStep, StdoutEvent, StdoutStep, Subscription, WsStreamSession,
};

fn session() -> WsStreamSession<&'static str, &'static str> {
    WsStreamSession::new("stdin", "stdout")
}

#[test]
fn writes_report_their_length() {
    let session = session();
    let step = || session.write_stdin(b"ping\n").ok().unwrap();
    assert_eq!(step().bytes(), b"ping\n");
    assert_eq!(step().written(Ok(())), Ok(5));
    let error = step().written(Err("broken pipe".to_string())).unwrap_err();
    assert_eq!(error, ws_internal_error("failed to write stdin: broken pipe".to_string()));
    assert_eq!(error.code, -32000);
}

#[test]
fn closing_the_input_is_final() {
    let mut session = session();
    match session.close_stdin() {
        CloseStdin::Close(stdin) => assert_eq!(stdin, "stdin"),
        CloseStdin::AlreadyClosed => panic!("the input was open"),
    }
    assert_eq!(stdin_closed(Ok(())), Ok(true));
    assert_eq!(
        stdin_closed(Err("why".to_string())).unwrap_err().message,
        "failed to close stdin: why"
    );
    assert!(matches!(session.close_stdin(), CloseStdin::AlreadyClosed));
    let error = session.write_stdin(b"x").err().unwrap();
    assert_eq!(error.message, "stdin is closed");
    assert_eq!(error.code, -32000);
    // The output is not touched.
    assert_eq!(session.take_stdout(), Some("stdout"));
}

#[test]
fn output_has_one_subscriber() {
    let mut session = session();
    match session.subscribe_stdout() {
        Subscription::Accept(stdout) => assert_eq!(stdout, "stdout"),
        Subscription::Reject(_) => panic!("the first subscription was rejected"),
    }
    match session.subscribe_stdout() {
        Subscription::Reject(error) => {
            assert_eq!(error.message, "stdout is already subscribed");
            assert_eq!(error.code, -32000);
        }
        Subscription::Accept(_) => panic!("the second subscription was accepted"),
    }
    assert_eq!(session.take_stdout(), None);
    // The input is not touched.
    assert!(session.write_stdin(b"x").is_ok());
}

#[test]
fn subscriptions_stream_until_something_ends() {
    match stream_stdout_subscription(StdoutEvent::Read(Ok(b"boot\n".to_vec()))) {
        StdoutStep::Send(chunk) => assert_eq!(chunk.data, b"boot\n"),
        _ => panic!("output was not sent"),
    }
    assert!(matches!(
        stream_stdout_subscription(StdoutEvent::Sent(true)),
        StdoutStep::Continue
    ));
    for last in [
        StdoutEvent::SinkClosed,
        StdoutEvent::Read(Ok(vec![])),
        StdoutEvent::Read(Err("why".to_string())),
        StdoutEvent::Sent(false),
    ] {
        assert!(matches!(stream_stdout_subscription(last), StdoutStep::Stop));
    }
}

#[test]
fn connections_end_in_order() {
    let status = ProcessStatus {
        code: Some(0),
        signal: None,
    };
    let join = || match serve_rpc_connection(RpcEvent::ChildExited(Ok(status))) {
        RpcStep::StopAndJoin(step) => step,
        _ => panic!("the server was not joined"),
    };
    assert_eq!(join().joined(Ok(Ok(()))), Ok(status));
    assert_eq!(
        join().joined(Ok(Err("reset".to_string()))).unwrap_err().message(),
        "WebSocket transport failed: reset"
    );
    assert_eq!(
        join().joined(Err("panicked".to_string())).unwrap_err().message(),
        "failed to join WebSocket transport task"
    );
    match serve_rpc_connection(RpcEvent::ChildExited(Err("lost".to_string()))) {
        RpcStep::Finished(ended) => assert_eq!(
            ended.unwrap_err(),
            RuntimeError::WaitChild {
                cause: "lost".to_string()
            }
        ),
        _ => panic!("the service went on"),
    }
    let terminate = || match serve_rpc_connection(RpcEvent::SessionClosed) {
        RpcStep::StopAndTerminate(step) => step,
        _ => panic!("the process was left running"),
    };
    assert_eq!(
        terminate().terminated(Ok(status)).ok().unwrap().joined(Ok(Ok(()))),
        Ok(status)
    );
    assert_eq!(
        terminate().terminated(Err(RuntimeError::MissingStdin)).err().unwrap(),
        RuntimeError::MissingStdin
    );
}
