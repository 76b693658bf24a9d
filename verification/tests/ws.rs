use acp_agent::runtime::process::{AfterTermination, ProcessStatus};
use acp_agent::runtime::transports::ndjson::{LineSplitter, SplitError};
use acp_agent::runtime::transports::ws::{
    accept_ws_client, accept_ws_connection, frame_sent, inbound_step, judge_inbound_message,
    pump_child_stdout_to_ws, pump_ws_to_child_stdin, serve_ws, serve_ws_connection,
    validate_inbound_ws_message, ExitGraceNext, InboundError, InboundEvent, InboundFrame,
    InboundStep, JsonKind, OutboundError, OutboundStep, OutputGrace, OutputGraceNext, WsEvent,
    WsStep,
};

#[test]
fn validate_accepts_valid_object() {
    assert!(validate_inbound_ws_message(r#"{"method":"ping"}"#).is_ok());
}

#[test]
fn validate_rejects_newline() {
    assert!(validate_inbound_ws_message("{\"a\":1}\n").is_err());
}

#[test]
fn validate_rejects_carriage_return() {
    assert!(validate_inbound_ws_message("{\"a\":1}\r").is_err());
}

#[test]
fn validate_rejects_non_json() {
    assert!(validate_inbound_ws_message("hello").is_err());
}

#[test]
fn validate_rejects_json_array() {
    assert!(validate_inbound_ws_message("[1,2]").is_err());
}

#[test]
fn validate_rejects_json_null() {
    assert!(validate_inbound_ws_message("null").is_err());
}

#[test]
fn rejected_frames_are_described() {
    for (frame, message) in [
        (
            "{\"a\":1}\n{\"b\":2}",
            "WebSocket frame must not contain newlines (would corrupt NDJSON framing)",
        ),
        ("not json", "WebSocket frame is not valid JSON"),
        ("", "WebSocket frame is not valid JSON"),
        ("{} {}", "WebSocket frame is not valid JSON"),
        ("[1,2,3]", "WebSocket frame JSON must be an object (got array)"),
        ("true", "WebSocket frame JSON must be an object (got bool)"),
        ("null", "WebSocket frame JSON must be an object (got null)"),
        ("-1.5", "WebSocket frame JSON must be an object (got number)"),
        ("\"{}\"", "WebSocket frame JSON must be an object (got string)"),
    ] {
        let error = validate_inbound_ws_message(frame).unwrap_err();
        assert_eq!(error.message(), message, "{frame:?}");
    }
    assert!(validate_inbound_ws_message(" {} ").is_ok());
}

#[test]
fn frames_are_judged_by_their_kind() {
    assert_eq!(judge_inbound_message("x", Some(JsonKind::Object)), Ok(()));
    assert_eq!(
        judge_inbound_message("x", None),
        Err(InboundError::InvalidJson)
    );
    assert_eq!(
        judge_inbound_message("x\r", Some(JsonKind::Object)),
        Err(InboundError::ContainsNewline)
    );
    assert_eq!(
        judge_inbound_message("x", Some(JsonKind::Number)),
        Err(InboundError::NotAnObject {
            kind: JsonKind::Number
        })
    );
    assert!(matches!(
        inbound_step(
            InboundEvent::Frame(InboundFrame::Text("x".to_string())),
            Some(JsonKind::Object)
        ),
        InboundStep::Write(_)
    ));
}

#[test]
fn frames_become_lines() {
    let text = r#"{"jsonrpc":"2.0","method":"ping","params":"é"}"#;
    let write = || match pump_ws_to_child_stdin(InboundEvent::Frame(InboundFrame::Text(
        text.to_string(),
    ))) {
        InboundStep::Write(step) => step,
        _ => panic!("the frame was not accepted"),
    };
    let step = write();
    let mut input = step.bytes().to_vec();
    let newline = step.text_written(Ok(())).ok().unwrap();
    input.push(newline.byte());
    assert_eq!(newline.newline_written(Ok(())), Ok(()));
    assert_eq!(input, format!("{text}\n").as_bytes());

    assert_eq!(
        write().text_written(Err("why".to_string())).err().unwrap().message(),
        "failed to write to child stdin"
    );
    let newline = write().text_written(Ok(())).ok().unwrap();
    assert_eq!(
        newline.newline_written(Err("why".to_string())).unwrap_err().message(),
        "failed to write newline to child stdin"
    );
}

#[test]
fn other_frames_end_or_pass() {
    let step = |frame| pump_ws_to_child_stdin(InboundEvent::Frame(frame));
    match step(InboundFrame::Binary) {
        InboundStep::Fail(error) => assert_eq!(
            error.message(),
            "WebSocket transport only accepts Text frames; Binary frame rejected"
        ),
        _ => panic!("a binary frame was accepted"),
    }
    match step(InboundFrame::Text("[]".to_string())) {
        InboundStep::Fail(error) => assert_eq!(
            error,
            InboundError::NotAnObject {
                kind: JsonKind::Array
            }
        ),
        _ => panic!("an array was accepted"),
    }
    assert!(matches!(step(InboundFrame::Close), InboundStep::Finish));
    assert!(matches!(step(InboundFrame::Control), InboundStep::Continue));
    assert!(matches!(
        pump_ws_to_child_stdin(InboundEvent::End),
        InboundStep::Finish
    ));
    match pump_ws_to_child_stdin(InboundEvent::ReadFailed("reset".to_string())) {
        InboundStep::Fail(error) => assert_eq!(error.message(), "WebSocket read error"),
        _ => panic!("a failed read was ignored"),
    }
}

/// The frames that an agent's output becomes when it is read in the given pieces, and how it ends.
fn pump_output(pieces: &[&[u8]]) -> (Vec<String>, Result<(), OutboundError>) {
    let mut splitter = LineSplitter::new();
    let mut frames = Vec::new();
    for piece in pieces {
        match pump_child_stdout_to_ws(&mut splitter, Ok(piece.to_vec())) {
            OutboundStep::Send(more) => frames.extend(more),
            OutboundStep::Close => panic!("the output has not ended"),
            OutboundStep::Fail(error) => return (frames, Err(error)),
        }
    }
    match pump_child_stdout_to_ws(&mut splitter, Ok(vec![])) {
        OutboundStep::Close => (frames, Ok(())),
        OutboundStep::Send(_) => panic!("nothing was read"),
        OutboundStep::Fail(error) => (frames, Err(error)),
    }
}

#[test]
fn lines_become_frames() {
    assert_eq!(
        pump_output(&[b"{\"id\":1}\n{\"id\":2}\n"]),
        (
            vec!["{\"id\":1}".to_string(), "{\"id\":2}".to_string()],
            Ok(())
        )
    );
    // Empty lines are not sent.
    assert_eq!(
        pump_output(&[b"{\"id\":1}\n\n{\"id\":2}\n"]),
        (
            vec!["{\"id\":1}".to_string(), "{\"id\":2}".to_string()],
            Ok(())
        )
    );
    // An unterminated line fails.
    assert_eq!(
        pump_output(&[b"{\"id\":1}"]),
        (vec![], Err(OutboundError::UnterminatedLine))
    );
    assert_eq!(pump_output(&[]), (vec![], Ok(())));
    // So does a part of a character.
    assert_eq!(
        pump_output(&[b"{\"id\":1}\n\xc3"]),
        (
            vec!["{\"id\":1}".to_string()],
            Err(OutboundError::UnterminatedLine)
        )
    );
}

#[test]
fn pieces_do_not_matter() {
    let text = "{\"a\":\"é\u{1f600}\"}\n\n\u{7ff}\u{800}\u{ffff}\u{10ffff}\r\nlast\n";
    let bytes = text.as_bytes();
    let expected: Vec<String> = text
        .split('\n')
        .filter(|line| !line.is_empty())
        .map(|line| line.to_string())
        .collect();
    for size in 1..=bytes.len() {
        let pieces: Vec<&[u8]> = bytes.chunks(size).collect();
        assert_eq!(pump_output(&pieces), (expected.clone(), Ok(())), "{size}");
    }
}

#[test]
fn output_that_is_no_text_fails_as_the_standard_decoder_says() {
    let samples: [&[u8]; 16] = [
        b"\xff",
        b"\xc0",
        b"\xc1\x80",
        b"\xc2",
        b"\xc2\x41",
        b"\xe0\x80",
        b"\xe0\xa0",
        b"\xed\x9f",
        b"\xed\xa0",
        b"\xef\xbf\xbf",
        b"\xf0\x8f",
        b"\xf0\x90\x80",
        b"\xf4\x8f\xbf",
        b"\xf4\x90",
        b"\xf5",
        b"\x80",
    ];
    for sample in samples {
        let mut splitter = LineSplitter::new();
        let hopeless = match std::str::from_utf8(sample) {
            Ok(_) => false,
            Err(error) => error.error_len().is_some(),
        };
        assert_eq!(
            splitter.push(sample),
            if hopeless {
                Err(SplitError::InvalidUtf8)
            } else {
                Ok(vec![])
            },
            "{sample:?}"
        );
    }
    assert_eq!(
        pump_output(&[b"ok\n", b"a\xff\n"]),
        (vec!["ok".to_string()], Err(OutboundError::InvalidUtf8))
    );
}

#[test]
fn outbound_failures_are_described() {
    assert_eq!(
        frame_sent(Err("why".to_string())).unwrap_err().message(),
        "failed to send WebSocket frame"
    );
    assert!(frame_sent(Ok(())).is_ok());
    let mut splitter = LineSplitter::new();
    match pump_child_stdout_to_ws(&mut splitter, Err("why".to_string())) {
        OutboundStep::Fail(error) => {
            assert_eq!(error.message(), "failed to read from child stdout")
        }
        _ => panic!("a failed read was ignored"),
    }
    assert_eq!(
        OutboundError::UnterminatedLine.message(),
        "child stdout closed with unterminated line (missing trailing newline)"
    );
    assert_eq!(
        OutboundError::InvalidUtf8.message(),
        "child stdout contains invalid UTF-8 data"
    );
}

#[test]
fn echoed_frames_come_back() {
    let sent = ["{\"id\":1}", "{\"id\":\"é\"}", " { } "];
    let mut input = Vec::new();
    for frame in sent {
        match pump_ws_to_child_stdin(InboundEvent::Frame(InboundFrame::Text(frame.to_string()))) {
            InboundStep::Write(step) => {
                input.extend_from_slice(step.bytes());
                input.push(step.text_written(Ok(())).ok().unwrap().byte());
            }
            _ => panic!("the frame was not accepted"),
        }
    }
    for cut in 0..=input.len() {
        let (first, rest) = input.split_at(cut);
        let pieces: Vec<&[u8]> = [first, rest]
            .into_iter()
            .filter(|piece| !piece.is_empty())
            .collect();
        let (frames, ended) = pump_output(&pieces);
        assert_eq!(frames, sent);
        assert_eq!(ended, Ok(()));
    }
}

#[test]
fn agents_may_finish_when_the_client_leaves() {
    let status = ProcessStatus {
        code: Some(0),
        signal: None,
    };
    let grace = || match serve_ws_connection(WsEvent::InboundEnded(Ok(()))) {
        WsStep::CloseStdin(step) => step,
        WsStep::Terminate(_) => panic!("the agent was not given time"),
    };
    let OutputGraceNext::AwaitExit(exit) = grace().drained(OutputGrace::Ended(Ok(()))) else {
        panic!("the end was not awaited");
    };
    match exit.waited(Some(Ok(status))) {
        ExitGraceNext::Finished(ended) => assert_eq!(ended, status),
        ExitGraceNext::Terminate(_) => panic!("the process has ended"),
    }
    let OutputGraceNext::TerminateAndAwaitExit(exit) = grace().drained(OutputGrace::TimedOut)
    else {
        panic!("the process was left running");
    };
    assert!(matches!(
        exit.waited(None),
        ExitGraceNext::Terminate(AfterTermination::Report)
    ));
    let OutputGraceNext::TerminateAndAwaitExit(exit) = grace().drained(OutputGrace::TimedOut)
    else {
        panic!("the process was left running");
    };
    assert!(matches!(
        exit.waited(Some(Err("lost".to_string()))),
        ExitGraceNext::Terminate(AfterTermination::Report)
    ));
    match grace().drained(OutputGrace::Ended(Err(OutboundError::InvalidUtf8))) {
        OutputGraceNext::Terminate(after) => assert_eq!(
            after.conclude(Ok(status)).unwrap_err().message(),
            "WebSocket transport failed: child stdout contains invalid UTF-8 data"
        ),
        _ => panic!("the failure was ignored"),
    }
}

#[test]
fn failures_end_the_agent() {
    let status = ProcessStatus {
        code: Some(0),
        signal: None,
    };
    match serve_ws_connection(WsEvent::InboundEnded(Err(InboundError::InvalidJson))) {
        WsStep::Terminate(after) => assert_eq!(
            after.conclude(Ok(status)).unwrap_err().message(),
            "WebSocket transport failed: WebSocket frame is not valid JSON"
        ),
        WsStep::CloseStdin(_) => panic!("the failure was ignored"),
    }
    match serve_ws_connection(WsEvent::OutboundEnded(Err(OutboundError::UnterminatedLine))) {
        WsStep::Terminate(after) => assert_eq!(
            after.conclude(Ok(status)).unwrap_err().message(),
            "WebSocket transport failed: child stdout closed with unterminated line (missing \
             trailing newline)"
        ),
        WsStep::CloseStdin(_) => panic!("the failure was ignored"),
    }
    match serve_ws_connection(WsEvent::OutboundEnded(Ok(()))) {
        WsStep::Terminate(after) => assert_eq!(after.conclude(Ok(status)), Ok(status)),
        WsStep::CloseStdin(_) => panic!("the process was left running"),
    }
}

#[test]
fn ws_listeners_are_announced() {
    let opened = serve_ws("demo", "127.0.0.1", 0, Ok(((), Some("127.0.0.1:9".to_string()))))
        .ok()
        .unwrap();
    assert_eq!(
        opened.line,
        "Running demo over ws://127.0.0.1:9 (ACP message per WebSocket frame)"
    );
    let error = serve_ws::<()>("demo", "127.0.0.1", 80, Err("in use".to_string()))
        .err()
        .unwrap();
    assert_eq!(
        error.message(),
        "failed to bind WebSocket listener on host=127.0.0.1, port=80"
    );
    assert_eq!(error.cause(), Some("in use".to_string()));
    assert_eq!(
        accept_ws_client::<()>("127.0.0.1:9", Err("reset".to_string()))
            .unwrap_err()
            .message(),
        "failed to accept WebSocket connection on 127.0.0.1:9"
    );
    let error = accept_ws_connection::<()>(Err("bad key".to_string())).unwrap_err();
    assert_eq!(error.message(), "WebSocket handshake failed");
    assert_eq!(error.cause(), Some("bad key".to_string()));
}
