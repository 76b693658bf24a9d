use acp_agent::runtime::error::bind_target_display;
use acp_agent::runtime::process::ProcessStatus;
use acp_agent::runtime::transports::raw::{
    pump_child_to_stream, pump_stream_to_child_until_error, serve_raw_stream_connection, ClientDone,
    PumpError, RawEvent, RawStep, CLIENT_CLOSE_GRACE_SECONDS,
};
use acp_agent::runtime::transports::tcp::{accept_tcp_client, serve_tcp};
use acp_agent::runtime::transports::uds::serve_uds;

fn why() -> String {
    "why".to_string()
}

fn status() -> ProcessStatus {
    ProcessStatus {
        code: Some(0),
        signal: None,
    }
}

#[test]
fn raw_directions_close_what_they_fed() {
    let closing = || pump_stream_to_child_until_error(Ok(())).ok().unwrap();
    assert!(closing().closed(Ok(())).is_ok());
    assert_eq!(
        pump_stream_to_child_until_error(Err(why())).err().unwrap().message(),
        "failed to read from client stream or write to child stdin"
    );
    assert_eq!(
        closing().closed(Err(why())).err().unwrap().message(),
        "failed to close child stdin after client EOF"
    );
    let closing = || pump_child_to_stream(Ok(())).ok().unwrap();
    assert_eq!(closing().closed(Ok(())), Ok(()));
    assert_eq!(
        pump_child_to_stream(Err(why())).err().unwrap().message(),
        "failed to read from child stdout or write to client stream"
    );
    assert_eq!(
        closing().closed(Err(why())).unwrap_err().message(),
        "failed to close client stream after child stdout EOF"
    );
}

#[test]
fn raw_connections_end_with_the_process() {
    match serve_raw_stream_connection(RawEvent::ChildExited(Ok(status()))) {
        RawStep::Finished(ended) => assert_eq!(ended, Ok(status())),
        RawStep::Terminate(_) => panic!("the process has ended"),
    }
    match serve_raw_stream_connection(RawEvent::ChildExited(Err(why()))) {
        RawStep::Finished(ended) => assert_eq!(
            ended.unwrap_err().message(),
            "failed while waiting on child process"
        ),
        RawStep::Terminate(_) => panic!("nothing is known of the process"),
    }
    match serve_raw_stream_connection(RawEvent::StdoutPumpEnded(Ok(()))) {
        RawStep::Terminate(after) => assert_eq!(after.conclude(Ok(status())), Ok(status())),
        RawStep::Finished(_) => panic!("the process was left running"),
    }
    let failed = |event: RawEvent| -> String {
        match serve_raw_stream_connection(event) {
            RawStep::Terminate(after) => after.conclude(Ok(status())).unwrap_err().message(),
            RawStep::Finished(_) => panic!("the process was left running"),
        }
    };
    assert_eq!(
        failed(RawEvent::StdinPumpFailed(PumpError::ClientToChild { cause: why() })),
        "raw stream transport failed: failed to read from client stream or write to child stdin"
    );
    assert_eq!(
        failed(RawEvent::StdoutPumpEnded(Err(PumpError::CloseClient { cause: why() }))),
        "raw stream transport failed: failed to close client stream after child stdout EOF"
    );
}

fn client_done() -> ClientDone {
    pump_stream_to_child_until_error(Ok(())).ok().unwrap().closed(Ok(())).ok().unwrap()
}

#[test]
fn raw_connections_end_with_the_client() {
    assert_eq!(CLIENT_CLOSE_GRACE_SECONDS, 30);
    match serve_raw_stream_connection(RawEvent::ClientGone(client_done())) {
        RawStep::Terminate(after) => assert_eq!(after.conclude(Ok(status())), Ok(status())),
        RawStep::Finished(_) => panic!("the process was left running"),
    }
    match client_done().waited(None) {
        RawStep::Terminate(after) => assert_eq!(after.conclude(Ok(status())), Ok(status())),
        RawStep::Finished(_) => panic!("the process was left running"),
    }
    match client_done().waited(Some(Ok(status()))) {
        RawStep::Finished(ended) => assert_eq!(ended, Ok(status())),
        RawStep::Terminate(_) => panic!("the process has ended"),
    }
    match client_done().waited(Some(Err(why()))) {
        RawStep::Finished(ended) => assert_eq!(
            ended.unwrap_err().message(),
            "failed while waiting on child process"
        ),
        RawStep::Terminate(_) => panic!("nothing is known of the process"),
    }
}

#[test]
fn tcp_listeners_are_announced() {
    let opened = serve_tcp("demo", "localhost", 0, Ok(("L", Some("127.0.0.1:9".to_string()))))
        .ok()
        .unwrap();
    assert_eq!(
        opened.line,
        "Running demo over tcp://127.0.0.1:9 (raw stdio stream transport)"
    );
    let unnamed = serve_tcp("demo", "localhost", 65535, Ok(("L", None))).ok().unwrap();
    assert_eq!(unnamed.bound.display_address, "host=localhost, port=65535");
    assert_eq!(
        serve_tcp::<()>("demo", "localhost", 1, Err(why())).err().unwrap().message(),
        "failed to bind TCP listener on host=localhost, port=1"
    );
    assert_eq!(accept_tcp_client("a", Ok(5)), Ok(5));
    assert_eq!(
        accept_tcp_client::<()>("127.0.0.1:9", Err(why())).unwrap_err().message(),
        "failed to accept TCP connection on 127.0.0.1:9"
    );
    assert_eq!(bind_target_display("::1", 0), "host=::1, port=0");
}

#[test]
fn existing_socket_paths_are_refused_and_kept() {
    let error = serve_uds(b"/run/agent.sock", true).err().unwrap();
    assert_eq!(
        error.message(),
        "refusing to bind Unix socket at /run/agent.sock: path already exists"
    );
}

#[test]
fn socket_paths_are_removed_exactly_if_created() {
    let mut guard = serve_uds(b"/run/agent.sock", false).ok().unwrap();
    assert_eq!(guard.removal(), None);
    assert_eq!(
        guard.bound(Err(why())).unwrap_err().message(),
        "failed to bind Unix socket listener at /run/agent.sock"
    );
    assert_eq!(guard.removal(), None);
    assert_eq!(guard.bound(Ok(())), Ok(()));
    assert_eq!(guard.removal(), Some(b"/run/agent.sock".to_vec()));
    assert_eq!(
        guard.announcement("demo"),
        "Running demo over unix:///run/agent.sock (raw stdio stream transport)"
    );
    assert_eq!(guard.accepted(Ok(7)), Ok(7));
    assert_eq!(
        guard.accepted::<()>(Err(why())).unwrap_err().message(),
        "failed to accept Unix socket connection on /run/agent.sock"
    );
    // A failure after the bind does not keep the path.
    assert_eq!(guard.removal(), Some(b"/run/agent.sock".to_vec()));
}

#[test]
fn socket_paths_need_not_be_utf8() {
    let error = serve_uds(b"/run/\xff.sock", true).err().unwrap();
    assert_eq!(
        error.message(),
        "refusing to bind Unix socket at /run/\u{fffd}.sock: path already exists"
    );
    let mut guard = serve_uds(b"/run/\xff.sock", false).ok().unwrap();
    assert_eq!(guard.bound(Ok(())), Ok(()));
    assert_eq!(guard.removal(), Some(b"/run/\xff.sock".to_vec()));
    assert_eq!(
        guard.announcement("demo"),
        "Running demo over unix:///run/\u{fffd}.sock (raw stdio stream transport)"
    );
}
