use acp_agent::runtime::process::{AfterTermination, ProcessStatus};
use acp_agent::runtime::transports::h2::{
    content_type_is_stream, handle_h2_request, header_text_is_stream,
    pump_child_stdout_to_response, pump_request_body_to_child, serve_h2_connection, BodyEvent,
    BodyStep, H2Event, H2Reply, H2Step, HttpVersion, RequestHead, ResponseEvent, ResponseStep,
    H2_STREAM_CONTENT_TYPE,
};

#[test]
fn accepts_stream_content_type() {
    let header = hyper::header::HeaderValue::from_static(H2_STREAM_CONTENT_TYPE);
    assert!(content_type_is_stream(&Some(header.as_bytes().to_vec())));
}

#[test]
fn rejects_non_stream_content_type() {
    let header = hyper::header::HeaderValue::from_static("application/json");
    assert!(!content_type_is_stream(&Some(header.as_bytes().to_vec())));
}

#[test]
fn content_types_are_compared_whatever_their_case() {
    for (bytes, expected) in [
        (&b"Application/OCTET-Stream"[..], true),
        (b"application/octet-stream ", false),
        (b"application/octet-stream; charset=utf-8", false),
        (b"application/octet-strea", false),
        (b"", false),
        (b"application/octet-stream\xff", false),
        (b"application/octet-stream\n", false),
        (b"\xc3\xa9", false),
    ] {
        assert_eq!(content_type_is_stream(&Some(bytes.to_vec())), expected, "{bytes:?}");
        // What the header's own text says, where it has one.
        let by_header = hyper::header::HeaderValue::from_bytes(bytes)
            .ok()
            .and_then(|value| value.to_str().ok().map(|text| text.to_string()))
            .is_some_and(|text| text.eq_ignore_ascii_case(H2_STREAM_CONTENT_TYPE));
        assert_eq!(by_header, expected, "{bytes:?}");
    }
    assert!(!content_type_is_stream(&None));
    assert!(header_text_is_stream("APPLICATION/octet-stream"));
    assert!(!header_text_is_stream("text/plain"));
}

fn request(version: HttpVersion, method: &str, content_type: Option<&str>) -> RequestHead {
    RequestHead {
        version,
        method: method.to_string(),
        content_type: content_type.map(|value| value.as_bytes().to_vec()),
    }
}

fn refused(request: &RequestHead, session: &mut Option<&str>) -> (u16, String) {
    match handle_h2_request(request, session) {
        H2Reply::Refuse(response) => (response.status, response.message),
        H2Reply::Stream(_) => panic!("the request became the stream"),
    }
}

#[test]
fn requests_are_refused_for_the_first_reason_that_holds() {
    let mut session = Some("session");
    for version in [
        HttpVersion::Http09,
        HttpVersion::Http10,
        HttpVersion::Http11,
        HttpVersion::Http3,
    ] {
        assert_eq!(
            refused(&request(version, "GET", None), &mut session),
            (505, "HTTP/2 is required for this transport.\n".to_string())
        );
    }
    for method in ["GET", "post", "PUT", ""] {
        assert_eq!(
            refused(&request(HttpVersion::Http2, method, None), &mut session),
            (405, "POST is required for this transport.\n".to_string())
        );
    }
    for content_type in [None, Some("application/json")] {
        assert_eq!(
            refused(&request(HttpVersion::Http2, "POST", content_type), &mut session),
            (
                415,
                "Content-Type: application/octet-stream is required.\n".to_string()
            )
        );
    }
    assert_eq!(session, Some("session"));
}

#[test]
fn first_acceptable_request_becomes_the_stream() {
    let mut session = Some("session");
    let good = request(HttpVersion::Http2, "POST", Some(H2_STREAM_CONTENT_TYPE));
    let bad = request(HttpVersion::Http2, "GET", None);
    assert_eq!(refused(&bad, &mut session).0, 405);
    match handle_h2_request(&good, &mut session) {
        H2Reply::Stream(taken) => assert_eq!(taken, "session"),
        H2Reply::Refuse(_) => panic!("the request was refused"),
    }
    assert_eq!(session, None);
    assert_eq!(
        refused(&good, &mut session),
        (
            409,
            "This transport accepts only one active HTTP/2 stream.\n".to_string()
        )
    );
    assert_eq!(refused(&bad, &mut session).0, 405);
}

/// The bytes that a body brings to an agent whose input takes `room` chunks.
fn pump_body(events: Vec<BodyEvent>, room: usize) -> (Vec<u8>, bool) {
    let mut written = Vec::new();
    let mut chunks = 0;
    for event in events {
        let mut step = pump_request_body_to_child(event);
        if let BodyStep::Write(data) = step {
            if chunks == room {
                step = pump_request_body_to_child(BodyEvent::WriteFailed);
                assert!(matches!(step, BodyStep::Close));
                return (written, true);
            }
            chunks += 1;
            written.extend_from_slice(&data);
            continue;
        }
        match step {
            BodyStep::Skip => {}
            BodyStep::Close => return (written, true),
            BodyStep::Write(_) => unreachable!(),
        }
    }
    (written, false)
}

#[test]
fn bodies_reach_the_agent_in_order() {
    let data = |text: &str| BodyEvent::Data(text.as_bytes().to_vec());
    assert_eq!(
        pump_body(
            vec![data("pi"), BodyEvent::Trailers, data("ng\n"), BodyEvent::End, data("x")],
            9
        ),
        (b"ping\n".to_vec(), true)
    );
    assert_eq!(
        pump_body(vec![data("a"), BodyEvent::Failed, data("b")], 9),
        (b"a".to_vec(), true)
    );
    assert_eq!(
        pump_body(vec![data("a"), data("b"), data("c")], 2),
        (b"ab".to_vec(), true)
    );
}

#[test]
fn output_becomes_the_response() {
    match pump_child_stdout_to_response(ResponseEvent::Read(Ok(b"boot\n".to_vec()))) {
        ResponseStep::Send(bytes) => assert_eq!(bytes, b"boot\n"),
        _ => panic!("output was not sent"),
    }
    assert!(matches!(
        pump_child_stdout_to_response(ResponseEvent::Sent(true)),
        ResponseStep::Read
    ));
    for last in [
        ResponseEvent::Sent(false),
        ResponseEvent::Read(Ok(vec![])),
        ResponseEvent::Read(Err("gone".to_string())),
    ] {
        assert!(matches!(
            pump_child_stdout_to_response(last),
            ResponseStep::End
        ));
    }
}

#[test]
fn connections_end_with_the_process() {
    let status = ProcessStatus {
        code: Some(0),
        signal: None,
    };
    let drain = || match serve_h2_connection(H2Event::ChildExited(Ok(status))) {
        H2Step::Drain(step) => step,
        _ => panic!("the connection was not drained"),
    };
    assert_eq!(drain().drained(Ok(())), Ok(status));
    assert_eq!(
        drain().drained(Err("reset".to_string())).unwrap_err().message(),
        "HTTP/2 connection failed: reset"
    );
    match serve_h2_connection(H2Event::ChildExited(Err("lost".to_string()))) {
        H2Step::Finished(ended) => assert_eq!(
            ended.unwrap_err().message(),
            "failed while waiting on child process"
        ),
        _ => panic!("the service went on"),
    }
    assert!(matches!(
        serve_h2_connection(H2Event::ConnectionEnded(Ok(()))),
        H2Step::Terminate(AfterTermination::Report)
    ));
    match serve_h2_connection(H2Event::ConnectionEnded(Err("reset".to_string()))) {
        H2Step::Terminate(after) => assert_eq!(
            after.conclude(Ok(status)).unwrap_err().message(),
            "HTTP/2 connection failed: reset"
        ),
        _ => panic!("the process was left running"),
    }
}
