//! The life of a session with the tool server: the handshake that opens it,
//! the calls it permits, and how it ends.
use vstd::prelude::*;
use crate::error::LibreOfficeError;
use crate::json::Json;
use crate::json::{member, non_null};
use crate::message::{
    JsonRpcError,
    JsonRpcRequest,
    JsonRpcNotification,
    JsonRpcResponse,
    decode_error,
    decode_response,
    drop_null,
    into_optional_text,
    into_u64,
    members_of,
    response_member_names,
};
use crate::mux::ReaderEvent;
use crate::text::{signed_decimal, signed_text};
use crate::types::{
    CLIENT_NAME,
    CLIENT_VERSION,
    PROTOCOL_VERSION,
    InitializeParams,
    InitializeResult,
    Tool,
    ToolCallParams,
    ToolsListResult,
    decode_initialize_result,
    decode_tools_list,
};

verus! {

/// Where a session stands. Only `Ready` permits calls.
#[derive(Debug, Clone, Copy, PartialEq, Eq, Structural)]
pub enum SessionState {
    Uninitialized,
    Initializing,
    Ready,
    ShuttingDown,
    Terminated,
}

/// What moves a session from one state to the next.
#[derive(Debug, Clone, Copy, PartialEq, Eq, Structural)]
pub enum SessionEvent {
    /// The server process was started and the `initialize` request sent.
    Spawned,
    /// The handshake completed.
    HandshakeSucceeded,
    /// The handshake reply carried an error or could not be read.
    HandshakeFailed,
    /// Someone asked for the session to end.
    ShutdownRequested,
    /// The server process is gone.
    ProcessEnded,
}

/// The state that follows `s` on `e`.
pub open spec fn next_state_of(s: SessionState, e: SessionEvent) -> SessionState {
    match (s, e) {
        (SessionState::Uninitialized, SessionEvent::Spawned) => SessionState::Initializing,
        (SessionState::Initializing, SessionEvent::HandshakeSucceeded) => SessionState::Ready,
        (SessionState::Initializing, SessionEvent::HandshakeFailed) => SessionState::Terminated,
        (SessionState::Ready, SessionEvent::ShutdownRequested) => SessionState::ShuttingDown,
        (SessionState::ShuttingDown, SessionEvent::ShutdownRequested) => SessionState::ShuttingDown,
        (SessionState::Terminated, _) => SessionState::Terminated,
        (_, SessionEvent::ShutdownRequested) => SessionState::Terminated,
        (_, SessionEvent::ProcessEnded) => SessionState::Terminated,
        (s, _) => s,
    }
}

/// The state that follows `s` on `e`.
pub fn next_state(s: SessionState, e: SessionEvent) -> (r: SessionState)
    ensures
        r == next_state_of(s, e),
{
    match (s, e) {
        (SessionState::Uninitialized, SessionEvent::Spawned) => SessionState::Initializing,
        (SessionState::Initializing, SessionEvent::HandshakeSucceeded) => SessionState::Ready,
        (SessionState::Initializing, SessionEvent::HandshakeFailed) => SessionState::Terminated,
        (SessionState::Ready, SessionEvent::ShutdownRequested) => SessionState::ShuttingDown,
        (SessionState::ShuttingDown, SessionEvent::ShutdownRequested) => SessionState::ShuttingDown,
        (SessionState::Terminated, _) => SessionState::Terminated,
        (_, SessionEvent::ShutdownRequested) => SessionState::Terminated,
        (_, SessionEvent::ProcessEnded) => SessionState::Terminated,
        (s, _) => s,
    }
}

/// Whether calls may be made in state `s`.
pub fn permits_calls(s: &SessionState) -> (r: bool)
    ensures
        r == (*s == SessionState::Ready),
{
    *s == SessionState::Ready
}

/// Asking twice for shutdown is the same as asking once, from any state, and
/// neither request brings a session back to life: afterwards no call is
/// permitted.
pub proof fn lemma_shutdown_idempotent(s: SessionState)
    ensures
        next_state_of(next_state_of(s, SessionEvent::ShutdownRequested), SessionEvent::ShutdownRequested)
            == next_state_of(s, SessionEvent::ShutdownRequested),
        next_state_of(s, SessionEvent::ShutdownRequested) != SessionState::Ready,
{
}

/// A failed handshake ends the session for good: no event after it permits
/// a call.
pub proof fn lemma_failed_handshake_terminates(events: Seq<SessionEvent>)
    ensures
        run(next_state_of(SessionState::Initializing, SessionEvent::HandshakeFailed), events)
            == SessionState::Terminated,
    decreases events.len(),
{
    if events.len() > 0 {
        lemma_failed_handshake_terminates(events.drop_first());
    }
}

/// The state after the events `events`, one after another, from `s`.
pub open spec fn run(s: SessionState, events: Seq<SessionEvent>) -> SessionState
    decreases events.len(),
{
    if events.len() == 0 {
        s
    } else {
        run(next_state_of(s, events[0]), events.drop_first())
    }
}

/// The `initialize` request under identifier `id`.
pub fn initialize_request(id: u64) -> (r: JsonRpcRequest)
    ensures
        r.jsonrpc@ == "2.0"@,
        r.id == id,
        r.method@ == "initialize"@,
        crate::json::member(r.params, "protocolVersion"@) matches Some(Json::Str(v)) && v@
            == PROTOCOL_VERSION@,
        crate::json::member(r.params, "clientInfo"@) matches Some(info) && crate::json::member(
            info,
            "name"@,
        ) matches Some(Json::Str(n)) && n@ == CLIENT_NAME@,
        crate::json::member(r.params, "clientInfo"@) matches Some(info) && crate::json::member(
            info,
            "version"@,
        ) matches Some(Json::Str(v)) && v@ == CLIENT_VERSION@,
        crate::json::member(r.params, "capabilities"@) matches Some(Json::Object(c)) && c@.len()
            == 0,
{
    let params = InitializeParams::default().to_json();
    JsonRpcRequest::new(id, "initialize", params)
}

/// The notification that completes the handshake.
pub fn initialized_notification() -> (r: JsonRpcNotification)
    ensures
        r.jsonrpc@ == "2.0"@,
        r.method@ == "notifications/initialized"@,
        r.params matches Json::Object(f) && f@.len() == 0,
{
    JsonRpcNotification::new("notifications/initialized", Json::empty_object())
}

/// The message with which a handshake fails on an error reply.
pub open spec fn initialize_failed_message(message: Seq<char>, code: i32) -> Seq<char> {
    "Initialize failed: "@ + message + " (code "@ + signed_decimal(code as int) + ")"@
}

/// What judging the reply `resp` to `initialize` gives: a result that reads
/// as an initialize result completes the handshake; any other reply fails it.
pub open spec fn handshake_outcome_of(
    resp: JsonRpcResponse,
    r: Result<InitializeResult, LibreOfficeError>,
) -> bool {
    &&& r is Ok <==> (resp.result matches Some(v) && decode_initialize_result(v) is Some)
    &&& r matches Ok(info) ==> Some(info) == decode_initialize_result(resp.result.unwrap())
    &&& r matches Err(e) ==> e is HandshakeFailed
    &&& (resp.result is Some && r is Err) ==> (r matches Err(LibreOfficeError::HandshakeFailed(m))
        && m@ == "Invalid initialize response"@)
    &&& (resp.result is None && resp.error is Some) ==> (r matches Err(
        LibreOfficeError::HandshakeFailed(m),
    ) && m@ == initialize_failed_message(resp.error.unwrap().message@, resp.error.unwrap().code))
    &&& (resp.result is None && resp.error is None) ==> (r matches Err(
        LibreOfficeError::HandshakeFailed(m),
    ) && m@ == "Initialize response missing result and error"@)
}

/// The handshake failure for an error object that the server sent.
fn failed_with(e: JsonRpcError) -> (r: LibreOfficeError)
    ensures
        r matches LibreOfficeError::HandshakeFailed(m) && m@ == initialize_failed_message(
            e.message@,
            e.code,
        ),
{
    let mut m = String::from_str("Initialize failed: ");
    m.append(e.message.as_str());
    m.append(" (code ");
    let code = signed_text(e.code);
    m.append(code.as_str());
    m.append(")");
    assert(m@ =~= initialize_failed_message(e.message@, e.code));
    LibreOfficeError::HandshakeFailed(m)
}

/// Judges the reply to `initialize`: a result that reads as an initialize
/// result completes the handshake; any other reply fails it.
pub fn handshake_outcome(resp: JsonRpcResponse) -> (r: Result<InitializeResult, LibreOfficeError>)
    ensures
        handshake_outcome_of(resp, r),
{
    match resp.result {
        Some(v) => match InitializeResult::from_json(v) {
            Some(info) => Ok(info),
            None => Err(
                LibreOfficeError::HandshakeFailed(String::from_str("Invalid initialize response")),
            ),
        },
        None => match resp.error {
            Some(e) => Err(failed_with(e)),
            None => Err(
                LibreOfficeError::HandshakeFailed(
                    String::from_str("Initialize response missing result and error"),
                ),
            ),
        },
    }
}

/// Where the handshake stands after one event of the server's output.
pub enum HandshakeStep {
    /// The line was no reply (diagnostic text); read the next one.
    Continue,
    /// The handshake is decided.
    Done(Result<InitializeResult, LibreOfficeError>),
}

/// What one line of the server's output does to the handshake: a reply
/// decides it as `handshake_outcome` judges it; an object that carries an
/// error fails it, even without the members that make a reply; anything else
/// is skipped.
pub open spec fn handshake_line_of(j: Json, r: HandshakeStep) -> bool {
    match decode_response(j) {
        Some(resp) => r matches HandshakeStep::Done(o) && handshake_outcome_of(resp, o),
        None => match non_null(member(j, "error"@)) {
            Some(e) => match decode_error(e) {
                Some(err) => r matches HandshakeStep::Done(
                    Err(LibreOfficeError::HandshakeFailed(m)),
                ) && m@ == initialize_failed_message(err.message@, err.code),
                None => r matches HandshakeStep::Done(
                    Err(LibreOfficeError::HandshakeFailed(m)),
                ) && m@ == "Initialize failed: malformed error object"@,
            },
            None => r is Continue,
        },
    }
}

/// Reads the handshake reply directly from the server's output, before any
/// call is registered: the first line that is a reply, or that carries an
/// error, decides the handshake; other lines are skipped, and the end of the
/// output fails it.
pub fn on_handshake_event(event: ReaderEvent) -> (r: HandshakeStep)
    ensures
        match event {
            ReaderEvent::Closed => r matches HandshakeStep::Done(
                Err(LibreOfficeError::ProcessCrashed(m)),
            ) && m@ == "Process stdout closed"@,
            ReaderEvent::Line(None) => r is Continue,
            ReaderEvent::Line(Some(j)) => handshake_line_of(j, r),
        },
{
    match event {
        ReaderEvent::Closed => HandshakeStep::Done(
            Err(LibreOfficeError::ProcessCrashed(String::from_str("Process stdout closed"))),
        ),
        ReaderEvent::Line(None) => HandshakeStep::Continue,
        ReaderEvent::Line(Some(j)) => on_handshake_line(j),
    }
}

fn on_handshake_line(j: Json) -> (r: HandshakeStep)
    ensures
        handshake_line_of(j, r),
{
    let names = response_member_names();
    match members_of(j, &names) {
        None => HandshakeStep::Continue,
        Some(mut v) => {
            let error = drop_null(v.pop().unwrap());
            let result = v.pop().unwrap();
            let id = into_u64(v.pop().unwrap());
            let jsonrpc = into_optional_text(v.pop().unwrap());
            match error {
                Some(e) => match JsonRpcError::from_json(e) {
                    None => HandshakeStep::Done(
                        Err(
                            LibreOfficeError::HandshakeFailed(
                                String::from_str("Initialize failed: malformed error object"),
                            ),
                        ),
                    ),
                    Some(err) => match (jsonrpc, id) {
                        (Some(jsonrpc), Some(id)) => HandshakeStep::Done(
                            handshake_outcome(
                                JsonRpcResponse { jsonrpc, id, result, error: Some(err) },
                            ),
                        ),
                        _ => HandshakeStep::Done(Err(failed_with(err))),
                    },
                },
                None => match (jsonrpc, id) {
                    (Some(jsonrpc), Some(id)) => HandshakeStep::Done(
                        handshake_outcome(JsonRpcResponse { jsonrpc, id, result, error: None }),
                    ),
                    _ => HandshakeStep::Continue,
                },
            }
        },
    }
}

/// The `tools/list` request under identifier `id`.
pub fn list_tools_request(id: u64) -> (r: JsonRpcRequest)
    ensures
        r.jsonrpc@ == "2.0"@,
        r.id == id,
        r.method@ == "tools/list"@,
        r.params matches Json::Object(f) && f@.len() == 0,
{
    JsonRpcRequest::new(id, "tools/list", Json::empty_object())
}

/// The `tools/call` request under identifier `id` for the tool `name`.
pub fn call_tool_request(id: u64, name: &str, arguments: Json) -> (r: JsonRpcRequest)
    ensures
        r.jsonrpc@ == "2.0"@,
        r.id == id,
        r.method@ == "tools/call"@,
        crate::json::member(r.params, "name"@) matches Some(Json::Str(n)) && n@ == name@,
        crate::json::member(r.params, "arguments"@) == Some(arguments),
{
    let params = ToolCallParams { name: String::from_str(name), arguments };
    JsonRpcRequest::new(id, "tools/call", params.to_json())
}

/// The tools of a `tools/list` call from its outcome: the call's error as it
/// is, or the tools that its result lists.
pub fn list_tools_outcome(outcome: Result<Json, LibreOfficeError>) -> (r: Result<
    Vec<Tool>,
    LibreOfficeError,
>)
    ensures
        outcome is Err ==> r == Err::<Vec<Tool>, LibreOfficeError>(outcome->Err_0),
        outcome matches Ok(j) ==> match decode_tools_list(j) {
            Some(tools) => r matches Ok(v) && v@ == tools,
            None => r matches Err(LibreOfficeError::InvalidResponse(m)) && m@
                == "Failed to parse tools list"@,
        },
{
    match outcome {
        Err(e) => Err(e),
        Ok(j) => match ToolsListResult::from_json(j) {
            Some(list) => Ok(list.tools),
            None => Err(LibreOfficeError::InvalidResponse(String::from_str("Failed to parse tools list"))),
        },
    }
}

} // verus!
