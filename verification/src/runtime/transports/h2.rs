//! HTTP/2 transport: one request whose body is the agent's input, and whose response body is the
//! agent's output.
use vstd::prelude::*;
use vstd::string::*;

use crate::runtime::error::{Connection, RuntimeError};
use crate::runtime::process::{AfterTermination, ProcessStatus};
use crate::text;
use crate::text::{chars_of, lower_chars, same_text};

verus! {

/// The content type of the request and of the response.
pub const H2_STREAM_CONTENT_TYPE: &'static str = "application/octet-stream";

/// The content type of a refusal.
pub const H2_TEXT_CONTENT_TYPE: &'static str = "text/plain; charset=utf-8";

/// How many chunks of output may wait for the client.
pub const STREAM_BUFFER_CAPACITY: usize = 16;

/// How many bytes are read at a time.
pub const COPY_BUFFER_SIZE: usize = 8192;

/// The version of HTTP that a request speaks.
#[derive(Debug, Clone, Copy, PartialEq, Eq, Structural)]
pub enum HttpVersion {
    /// HTTP/0.9.
    Http09,
    /// HTTP/1.0.
    Http10,
    /// HTTP/1.1.
    Http11,
    /// HTTP/2.
    Http2,
    /// HTTP/3.
    Http3,
}

/// What a request says before its body.
#[derive(Debug, Clone, PartialEq, Eq)]
pub struct RequestHead {
    /// The version of HTTP.
    pub version: HttpVersion,
    /// The method.
    pub method: String,
    /// The bytes of the content type header, if there is one.
    pub content_type: Option<Vec<u8>>,
}

/// Whether a byte may stand in the text of a header.
pub open spec fn is_header_text_byte(b: u8) -> bool {
    32 <= b < 127 || b == 9
}

/// The text of a header that holds `bytes`.
pub open spec fn header_chars(bytes: Seq<u8>) -> Seq<char> {
    bytes.map_values(|b: u8| b as char)
}

/// Trusted: `hyper::header::HeaderValue::to_str`, on the header that holds `bytes`. It has a text
/// exactly if every byte is visible ASCII, a space or a tab, and the text has one character for
/// each byte. `HeaderValue::from_bytes`, which makes the header, accepts all such bytes.
#[verifier::external_body]
fn header_text(bytes: &[u8]) -> (header: Option<String>)
    ensures
        header is Some <==> forall|i: int|
            0 <= i < bytes@.len() ==> is_header_text_byte(#[trigger] bytes@[i]),
        header matches Some(value) ==> value@ == header_chars(bytes@),
{
    let value = hyper::header::HeaderValue::from_bytes(bytes).ok()?;
    value.to_str().ok().map(|value| value.to_owned())
}

/// Whether `content_type` names the stream's content type, whatever its case.
pub open spec fn is_stream_type(content_type: Option<Seq<u8>>) -> bool {
    match content_type {
        Some(bytes) => {
            &&& forall|i: int| 0 <= i < bytes.len() ==> is_header_text_byte(#[trigger] bytes[i])
            &&& text::lower(header_chars(bytes)) == text::lower(H2_STREAM_CONTENT_TYPE@)
        },
        None => false,
    }
}

/// The bytes of an optional header.
pub open spec fn header_bytes(content_type: Option<Vec<u8>>) -> Option<Seq<u8>> {
    match content_type {
        Some(bytes) => Some(bytes@),
        None => None,
    }
}

/// Whether `content_type` names the stream's content type, whatever its case.
pub fn content_type_is_stream(content_type: &Option<Vec<u8>>) -> (is_stream: bool)
    ensures
        is_stream == is_stream_type(header_bytes(*content_type)),
{
    match content_type {
        Some(bytes) => {
            match header_text(bytes.as_slice()) {
                Some(value) => header_text_is_stream(value.as_str()),
                None => false,
            }
        },
        None => false,
    }
}

/// Whether the text of a content type header names the stream's content type, whatever its case.
pub fn header_text_is_stream(value: &str) -> (is_stream: bool)
    ensures
        is_stream == (text::lower(value@) == text::lower(H2_STREAM_CONTENT_TYPE@)),
{
    let lowered = lower_chars(chars_of(value).as_slice());
    let wanted = lower_chars(chars_of(H2_STREAM_CONTENT_TYPE).as_slice());
    if lowered.len() != wanted.len() {
        return false;
    }
    let mut i: usize = 0;
    while i < wanted.len()
        invariant
            i <= wanted.len(),
            lowered.len() == wanted.len(),
            lowered@ == text::lower(value@),
            wanted@ == text::lower(H2_STREAM_CONTENT_TYPE@),
            forall|j: int| 0 <= j < i ==> lowered@[j] == wanted@[j],
        decreases wanted.len() - i,
    {
        if lowered[i] != wanted[i] {
            return false;
        }
        i += 1;
    }
    assert(lowered@ =~= wanted@);
    true
}

/// A refusal, with its status code.
#[derive(Debug, Clone, PartialEq, Eq)]
pub struct TextResponse {
    /// The status code.
    pub status: u16,
    /// The body.
    pub message: String,
}

/// The answer to a request.
pub enum H2Reply<S> {
    /// The request is refused.
    Refuse(TextResponse),
    /// The request becomes the stream of the session: status 200, with the stream's content type.
    Stream(S),
}

/// Why a request is refused, if it is: its status code and body. `session_free` tells whether no
/// request became the stream yet.
pub open spec fn refusal(request: RequestHead, session_free: bool) -> Option<(u16, Seq<char>)> {
    if request.version != HttpVersion::Http2 {
        Some((505u16, "HTTP/2 is required for this transport.\n"@))
    } else if request.method@ != "POST"@ {
        Some((405u16, "POST is required for this transport.\n"@))
    } else if !is_stream_type(header_bytes(request.content_type)) {
        Some((415u16, "Content-Type: "@ + H2_STREAM_CONTENT_TYPE@ + " is required.\n"@))
    } else if !session_free {
        Some((409u16, "This transport accepts only one active HTTP/2 stream.\n"@))
    } else {
        None
    }
}

/// Answers a request. The first acceptable request takes the session; a refused request leaves it
/// untouched.
pub fn handle_h2_request<S>(request: &RequestHead, session: &mut Option<S>) -> (reply: H2Reply<S>)
    ensures
        match refusal(*request, *old(session) is Some) {
            Some((status, message)) => {
                &&& reply matches H2Reply::Refuse(response) && response.status == status
                    && response.message@ == message
                &&& *final(session) == *old(session)
            },
            None => {
                &&& reply matches H2Reply::Stream(taken) && *old(session) == Some(taken)
                &&& *final(session) is None
            },
        },
{
    let http2 = match request.version {
        HttpVersion::Http2 => true,
        _ => false,
    };
    if !http2 {
        return H2Reply::Refuse(
            TextResponse {
                status: 505,
                message: "HTTP/2 is required for this transport.\n".to_owned(),
            },
        );
    }
    if !same_text(request.method.as_str(), "POST") {
        return H2Reply::Refuse(
            TextResponse {
                status: 405,
                message: "POST is required for this transport.\n".to_owned(),
            },
        );
    }
    if !content_type_is_stream(&request.content_type) {
        let mut message = "Content-Type: ".to_owned();
        message.append(H2_STREAM_CONTENT_TYPE);
        message.append(" is required.\n");
        return H2Reply::Refuse(TextResponse { status: 415, message });
    }
    match session.take() {
        Some(taken) => H2Reply::Stream(taken),
        None => H2Reply::Refuse(
            TextResponse {
                status: 409,
                message: "This transport accepts only one active HTTP/2 stream.\n".to_owned(),
            },
        ),
    }
}

/// What the request's body yields next.
pub enum BodyEvent {
    /// Bytes for the agent.
    Data(Vec<u8>),
    /// Something that holds no bytes.
    Trailers,
    /// The body could not be read.
    Failed,
    /// The body is complete.
    End,
    /// The last bytes could not be written to the agent.
    WriteFailed,
}

/// What is done with what the request's body yields.
pub enum BodyStep {
    /// The bytes are written to the agent's standard input.
    Write(Vec<u8>),
    /// The next event is awaited.
    Skip,
    /// The agent's standard input is closed.
    Close,
}

/// What is done with an event of the request's body.
pub open spec fn body_step(event: BodyEvent) -> BodyStep {
    match event {
        BodyEvent::Data(data) => BodyStep::Write(data),
        BodyEvent::Trailers => BodyStep::Skip,
        BodyEvent::Failed => BodyStep::Close,
        BodyEvent::End => BodyStep::Close,
        BodyEvent::WriteFailed => BodyStep::Close,
    }
}

/// Handles what the request's body yields.
pub fn pump_request_body_to_child(event: BodyEvent) -> (step: BodyStep)
    ensures
        step == body_step(event),
{
    match event {
        BodyEvent::Data(data) => BodyStep::Write(data),
        BodyEvent::Trailers => BodyStep::Skip,
        BodyEvent::Failed => BodyStep::Close,
        BodyEvent::End => BodyStep::Close,
        BodyEvent::WriteFailed => BodyStep::Close,
    }
}

/// The bytes that the events of a request's body bring to the agent, while writing succeeds.
pub open spec fn body_bytes(events: Seq<BodyEvent>) -> Seq<u8>
    decreases events.len(),
{
    if events.len() == 0 {
        Seq::empty()
    } else {
        match body_step(events[0]) {
            BodyStep::Write(data) => data@ + body_bytes(events.skip(1)),
            BodyStep::Skip => body_bytes(events.skip(1)),
            BodyStep::Close => Seq::empty(),
        }
    }
}

/// What the response's body waits for.
pub enum ResponseEvent {
    /// The agent's output was read; nothing if it has ended.
    Read(Result<Vec<u8>, String>),
    /// The last chunk was sent, or the client is gone.
    Sent(bool),
}

/// What is done with the response's body.
pub enum ResponseStep {
    /// The chunk is sent to the client.
    Send(Vec<u8>),
    /// The agent's output is read.
    Read,
    /// The body is complete.
    End,
}

/// What is done with the response's body after an event.
pub open spec fn response_step(event: ResponseEvent) -> ResponseStep {
    match event {
        ResponseEvent::Read(Ok(bytes)) => if bytes@.len() == 0 {
            ResponseStep::End
        } else {
            ResponseStep::Send(bytes)
        },
        ResponseEvent::Read(Err(cause)) => ResponseStep::End,
        ResponseEvent::Sent(ok) => if ok {
            ResponseStep::Read
        } else {
            ResponseStep::End
        },
    }
}

/// Handles what the response's body waits for.
pub fn pump_child_stdout_to_response(event: ResponseEvent) -> (step: ResponseStep)
    ensures
        step == response_step(event),
{
    match event {
        ResponseEvent::Read(Ok(bytes)) => {
            if bytes.len() == 0 {
                ResponseStep::End
            } else {
                ResponseStep::Send(bytes)
            }
        },
        ResponseEvent::Read(Err(_)) => ResponseStep::End,
        ResponseEvent::Sent(ok) => {
            if ok {
                ResponseStep::Read
            } else {
                ResponseStep::End
            }
        },
    }
}

/// The bytes that the response's body holds after the given events.
pub open spec fn response_bytes(events: Seq<ResponseEvent>) -> Seq<u8>
    decreases events.len(),
{
    if events.len() == 0 {
        Seq::empty()
    } else {
        match response_step(events[0]) {
            ResponseStep::Send(bytes) => bytes@ + response_bytes(events.skip(1)),
            ResponseStep::Read => response_bytes(events.skip(1)),
            ResponseStep::End => Seq::empty(),
        }
    }
}

/// What ends the service of an HTTP/2 connection.
pub enum H2Event {
    /// The agent's process ended, or could not be waited for.
    ChildExited(Result<ProcessStatus, String>),
    /// The connection ended, or failed.
    ConnectionEnded(Result<(), String>),
}

/// What is done when the service of an HTTP/2 connection ends.
pub enum H2Step {
    /// The service is over.
    Finished(Result<ProcessStatus, RuntimeError>),
    /// The connection is asked to finish what it is doing, and its end is awaited.
    Drain(DrainStep),
    /// The agent's process is ended.
    Terminate(AfterTermination),
}

/// The agent's process has ended, and the connection is being drained.
pub struct DrainStep {
    /// How the process ended.
    pub status: ProcessStatus,
}

/// Handles what ends the service of an HTTP/2 connection. The process is ended unless it ended
/// itself.
pub fn serve_h2_connection(event: H2Event) -> (step: H2Step)
    ensures
        step is Terminate <==> event is ConnectionEnded,
        step == match event {
            H2Event::ChildExited(Ok(status)) => H2Step::Drain(DrainStep { status }),
            H2Event::ChildExited(Err(cause)) => H2Step::Finished(
                Err(RuntimeError::WaitChild { cause }),
            ),
            H2Event::ConnectionEnded(Ok(())) => H2Step::Terminate(AfterTermination::Report),
            H2Event::ConnectionEnded(Err(reason)) => H2Step::Terminate(
                AfterTermination::Fail(
                    RuntimeError::Transport { connection: Connection::Http2, reason },
                ),
            ),
        },
{
    match event {
        H2Event::ChildExited(Ok(status)) => H2Step::Drain(DrainStep { status }),
        H2Event::ChildExited(Err(cause)) => H2Step::Finished(
            Err(RuntimeError::WaitChild { cause }),
        ),
        H2Event::ConnectionEnded(Ok(())) => H2Step::Terminate(AfterTermination::Report),
        H2Event::ConnectionEnded(Err(reason)) => H2Step::Terminate(
            AfterTermination::Fail(
                RuntimeError::Transport { connection: Connection::Http2, reason },
            ),
        ),
    }
}

impl DrainStep {
    /// Takes how the drained connection ended.
    pub fn drained(self, outcome: Result<(), String>) -> (status: Result<
        ProcessStatus,
        RuntimeError,
    >)
        ensures
            status == match outcome {
                Ok(()) => Ok::<ProcessStatus, RuntimeError>(self.status),
                Err(reason) => Err(
                    RuntimeError::Transport { connection: Connection::Http2, reason },
                ),
            },
    {
        match outcome {
            Ok(()) => Ok(self.status),
            Err(reason) => Err(RuntimeError::Transport { connection: Connection::Http2, reason }),
        }
    }
}

// ---------------------------------------------------------------------------
// Laws
// ---------------------------------------------------------------------------

/// Whether the session is still free once the given requests were answered in order.
pub open spec fn session_free_after(requests: Seq<RequestHead>) -> bool
    decreases requests.len(),
{
    if requests.len() == 0 {
        true
    } else {
        let free = session_free_after(requests.drop_last());
        free && refusal(requests.last(), free) is Some
    }
}

/// Whether the request at `i` becomes the stream, if the given requests are answered in order.
pub open spec fn becomes_stream(requests: Seq<RequestHead>, i: int) -> bool {
    &&& 0 <= i < requests.len()
    &&& refusal(requests[i], session_free_after(requests.take(i))) is None
}

proof fn lemma_session_free_after(requests: Seq<RequestHead>)
    ensures
        session_free_after(requests) <==> forall|j: int|
            0 <= j < requests.len() ==> refusal(#[trigger] requests[j], true) is Some,
    decreases requests.len(),
{
    if requests.len() > 0 {
        let before = requests.drop_last();
        lemma_session_free_after(before);
        if session_free_after(requests) {
            assert forall|j: int| 0 <= j < requests.len() implies refusal(
                #[trigger] requests[j],
                true,
            ) is Some by {
                if j < before.len() {
                    assert(before[j] == requests[j]);
                }
            }
        } else {
            if forall|j: int|
                0 <= j < requests.len() ==> refusal(#[trigger] requests[j], true) is Some {
                assert(forall|j: int|
                    0 <= j < before.len() ==> before[j] == #[trigger] requests[j]);
                assert(refusal(requests[requests.len() - 1], true) is Some);
            }
        }
    }
}

/// Whatever requests arrive, the first that is acceptable becomes the stream, and no other does.
pub proof fn first_acceptable_request_becomes_the_stream(
    requests: Seq<RequestHead>,
    i: int,
    other: int,
)
    requires
        0 <= i < requests.len(),
    ensures
        becomes_stream(requests, i) <==> refusal(requests[i], true) is None && forall|j: int|
            0 <= j < i ==> refusal(#[trigger] requests[j], true) is Some,
        becomes_stream(requests, i) && becomes_stream(requests, other) ==> i == other,
{
    lemma_session_free_after(requests.take(i));
    assert(forall|j: int| 0 <= j < i ==> requests.take(i)[j] == #[trigger] requests[j]);
    if 0 <= other < requests.len() {
        lemma_session_free_after(requests.take(other));
        assert(forall|j: int|
            0 <= j < other ==> requests.take(other)[j] == #[trigger] requests[j]);
    }
}

/// Whether a request is refused for its own sake does not depend on earlier requests; only an
/// acceptable one can meet a taken session.
pub proof fn conflict_is_only_for_acceptable_requests(request: RequestHead)
    ensures
        refusal(request, true) is Some ==> refusal(request, false) == refusal(request, true),
        refusal(request, true) is None ==> refusal(request, false) == Some(
            (409u16, "This transport accepts only one active HTTP/2 stream.\n"@),
        ),
{
}

/// The events of a body whose bytes come in the given frames.
pub open spec fn data_events(frames: Seq<Vec<u8>>) -> Seq<BodyEvent> {
    frames.map_values(|data: Vec<u8>| BodyEvent::Data(data))
}

/// The bytes of the given chunks, in order.
pub open spec fn chunk_bytes(chunks: Seq<Vec<u8>>) -> Seq<u8> {
    chunks.map_values(|data: Vec<u8>| data@).flatten()
}

proof fn lemma_chunk_bytes(chunks: Seq<Vec<u8>>)
    requires
        chunks.len() > 0,
    ensures
        chunk_bytes(chunks) == chunks[0]@ + chunk_bytes(chunks.drop_first()),
{
    let bytes = |data: Vec<u8>| data@;
    assert(chunks.map_values(bytes).drop_first() =~= chunks.drop_first().map_values(bytes));
}

/// The agent receives the bytes of the body in order and unchanged, ahead of whatever the body
/// yields later.
pub proof fn body_reaches_the_agent_unchanged(frames: Seq<Vec<u8>>, later: Seq<BodyEvent>)
    ensures
        body_bytes(data_events(frames) + later) == chunk_bytes(frames) + body_bytes(later),
    decreases frames.len(),
{
    let events = data_events(frames) + later;
    if frames.len() == 0 {
        assert(events =~= later);
        assert(chunk_bytes(frames) + body_bytes(later) =~= body_bytes(later));
    } else {
        let rest = frames.drop_first();
        body_reaches_the_agent_unchanged(rest, later);
        lemma_chunk_bytes(frames);
        assert(events[0] == BodyEvent::Data(frames[0]));
        assert(events.skip(1) =~= data_events(rest) + later);
        assert(frames[0]@ + (chunk_bytes(rest) + body_bytes(later)) =~= frames[0]@ + chunk_bytes(
            rest,
        ) + body_bytes(later));
    }
}

/// What the agent receives does not depend on the frames that the bytes came in.
pub proof fn body_bytes_ignore_frame_boundaries(
    frames: Seq<Vec<u8>>,
    others: Seq<Vec<u8>>,
    later: Seq<BodyEvent>,
)
    requires
        chunk_bytes(frames) == chunk_bytes(others),
    ensures
        body_bytes(data_events(frames) + later) == body_bytes(data_events(others) + later),
{
    body_reaches_the_agent_unchanged(frames, later);
    body_reaches_the_agent_unchanged(others, later);
}

/// The events of a response whose client takes each of the given chunks of output.
pub open spec fn taken_chunks(chunks: Seq<Vec<u8>>) -> Seq<ResponseEvent>
    decreases chunks.len(),
{
    if chunks.len() == 0 {
        Seq::empty()
    } else {
        seq![ResponseEvent::Read(Ok(chunks[0])), ResponseEvent::Sent(true)] + taken_chunks(
            chunks.drop_first(),
        )
    }
}

/// The response holds the agent's output byte for byte and in order, for as long as the client is
/// there, ahead of whatever follows later.
pub proof fn response_holds_output_in_order(chunks: Seq<Vec<u8>>, later: Seq<ResponseEvent>)
    requires
        forall|i: int| 0 <= i < chunks.len() ==> (#[trigger] chunks[i])@.len() > 0,
    ensures
        response_bytes(taken_chunks(chunks) + later) == chunk_bytes(chunks) + response_bytes(later),
    decreases chunks.len(),
{
    let events = taken_chunks(chunks) + later;
    if chunks.len() == 0 {
        assert(events =~= later);
        assert(chunk_bytes(chunks) + response_bytes(later) =~= response_bytes(later));
    } else {
        let rest = chunks.drop_first();
        response_holds_output_in_order(rest, later);
        lemma_chunk_bytes(chunks);
        let tail = events.skip(1);
        assert(chunks[0]@.len() > 0);
        assert(events[0] == ResponseEvent::Read(Ok(chunks[0])));
        assert(tail[0] == ResponseEvent::Sent(true));
        assert(tail.skip(1) =~= taken_chunks(rest) + later);
        assert(response_bytes(tail) == response_bytes(taken_chunks(rest) + later));
        assert(response_bytes(events) == chunks[0]@ + response_bytes(tail));
        assert(chunks[0]@ + (chunk_bytes(rest) + response_bytes(later)) =~= chunks[0]@
            + chunk_bytes(rest) + response_bytes(later));
    }
}

/// A request becomes the stream exactly if it speaks HTTP/2, is a POST, names the content type
/// `application/octet-stream` in ASCII letters of whatever case, and finds the session free.
pub proof fn byte_stream_posts_are_accepted(request: RequestHead, session_free: bool)
    ensures
        refusal(request, session_free) is None <==> {
            &&& request.version == HttpVersion::Http2
            &&& request.method@ == "POST"@
            &&& request.content_type matches Some(bytes) && {
                &&& bytes@.len() == "application/octet-stream"@.len()
                &&& forall|i: int|
                    0 <= i < bytes@.len() ==> 32 <= #[trigger] bytes@[i] < 127 || bytes@[i] == 9
                &&& forall|i: int|
                    0 <= i < bytes@.len() ==> {
                        let wanted = "application/octet-stream"@[i] as int;
                        ||| #[trigger] bytes@[i] as int == wanted
                        ||| 65 <= bytes@[i] <= 90 && bytes@[i] + 32 == wanted
                        ||| 97 <= bytes@[i] <= 122 && bytes@[i] - 32 == wanted
                    }
            }
            &&& session_free
        },
{
    let wanted = "application/octet-stream"@;
    match request.content_type {
        Some(bytes) => {
            let given = header_chars(bytes@);
            text::lower_changes_capitals_only(given);
            text::lower_changes_capitals_only(wanted);
            assert(H2_STREAM_CONTENT_TYPE@ == wanted);
            if text::lower(given) == text::lower(wanted) {
                assert forall|i: int| 0 <= i < bytes@.len() implies {
                    let w = wanted[i] as int;
                    ||| #[trigger] bytes@[i] as int == w
                    ||| 65 <= bytes@[i] <= 90 && bytes@[i] + 32 == w
                    ||| 97 <= bytes@[i] <= 122 && bytes@[i] - 32 == w
                } by {
                    assert(given[i] == bytes@[i] as char);
                    assert(text::lower(given)[i] == text::lower(wanted)[i]);
                }
            }
            if bytes@.len() == wanted.len() && (forall|i: int|
                0 <= i < bytes@.len() ==> {
                    let w = wanted[i] as int;
                    ||| #[trigger] bytes@[i] as int == w
                    ||| 65 <= bytes@[i] <= 90 && bytes@[i] + 32 == w
                    ||| 97 <= bytes@[i] <= 122 && bytes@[i] - 32 == w
                }) {
                assert forall|i: int| 0 <= i < given.len() implies text::lower(given)[i]
                    == text::lower(wanted)[i] by {
                    assert(given[i] == bytes@[i] as char);
                    assert(bytes@[i] as int == bytes@[i] as int);
                }
                assert(text::lower(given) =~= text::lower(wanted));
            }
            if text::lower(given) == text::lower(wanted) {
                assert(text::lower(given).len() == text::lower(wanted).len());
            }
        },
        None => {},
    }
}

/// A refused request is told the first thing that is wrong with it: the version of HTTP, then the
/// method, then the content type, then that another request has the session.
pub proof fn refusals_name_the_first_fault(request: RequestHead, session_free: bool)
    ensures
        request.version != HttpVersion::Http2 <==> (refusal(request, session_free) matches Some(
            (status, message),
        ) && status == 505),
        request.version == HttpVersion::Http2 && request.method@ != "POST"@ <==> (refusal(
            request,
            session_free,
        ) matches Some((status, message)) && status == 405),
        refusal(request, session_free) matches Some((status, message)) ==> status == 505 || status
            == 405 || status == 415 || status == 409,
        refusal(request, session_free) matches Some((status, message)) && status == 409 ==> refusal(
            request,
            true,
        ) is None,
        refusal(request, session_free) matches Some((status, message)) && status == 415 ==> refusal(
            request,
            true,
        ) is Some,
{
}

/// The bytes of each piece of the request's body are written to the agent as they are, nothing else
/// is, and the agent's input is closed only when the body is over.
pub proof fn each_piece_of_the_body_is_written(
    data: Vec<u8>,
    event: BodyEvent,
    later: Seq<BodyEvent>,
)
    ensures
        body_step(BodyEvent::Data(data)) == BodyStep::Write(data),
        body_step(event) is Write <==> event is Data,
        body_step(event) is Skip <==> event is Trailers,
        body_step(event) is Close <==> event is Failed || event is End || event is WriteFailed,
        body_bytes(seq![BodyEvent::Data(data)] + later) == data@ + body_bytes(later),
        body_bytes(seq![BodyEvent::Trailers] + later) == body_bytes(later),
        body_bytes(Seq::empty()) == Seq::<u8>::empty(),
{
    assert((seq![BodyEvent::Data(data)] + later).skip(1) =~= later);
    assert((seq![BodyEvent::Trailers] + later).skip(1) =~= later);
}

/// Each piece of the agent's output is sent to the client as it is, and the response ends only when
/// the output does, cannot be read, or the client is gone.
pub proof fn each_piece_of_the_output_is_sent(
    bytes: Vec<u8>,
    cause: String,
    later: Seq<ResponseEvent>,
)
    ensures
        bytes@.len() > 0 ==> response_step(ResponseEvent::Read(Ok(bytes))) == ResponseStep::Send(
            bytes,
        ),
        bytes@.len() == 0 ==> response_step(ResponseEvent::Read(Ok(bytes))) == ResponseStep::End,
        response_step(ResponseEvent::Read(Err(cause))) == ResponseStep::End,
        response_step(ResponseEvent::Sent(true)) == ResponseStep::Read,
        response_step(ResponseEvent::Sent(false)) == ResponseStep::End,
        bytes@.len() > 0 ==> response_bytes(seq![ResponseEvent::Read(Ok(bytes))] + later) == bytes@
            + response_bytes(later),
        response_bytes(seq![ResponseEvent::Sent(true)] + later) == response_bytes(later),
        response_bytes(Seq::empty()) == Seq::<u8>::empty(),
{
    assert((seq![ResponseEvent::Read(Ok(bytes))] + later).skip(1) =~= later);
    assert((seq![ResponseEvent::Sent(true)] + later).skip(1) =~= later);
}

} // verus!
