use smolpc_codehelper::error::LibreOfficeError;
use smolpc_codehelper::json::Json;
use smolpc_codehelper::message::{JsonRpcError, JsonRpcResponse};
use smolpc_codehelper::mux::{
    call_outcome, timeout_error, PendingTable, ReaderAction, ReaderEvent, CALL_TIMEOUT_SECS,
};
use smolpc_codehelper::session::{
    call_tool_request, handshake_outcome, initialize_request, initialized_notification,
    list_tools_outcome, list_tools_request, next_state, on_handshake_event, permits_calls,
    HandshakeStep, SessionEvent, SessionState,
};

fn text(s: &str) -> Json {
    Json::Str(s.to_string())
}

fn obj(fields: Vec<(&str, Json)>) -> Json {
    Json::Object(fields.into_iter().map(|(k, v)| (k.to_string(), v)).collect())
}

fn reply(id: u64, result: Json) -> Json {
    obj(vec![("jsonrpc", text("2.0")), ("id", Json::UInt(id)), ("result", result)])
}

#[test]
fn replies_in_reverse_order_reach_their_own_callers() {
    let mut table: PendingTable<u32> = PendingTable::new();
    let n: u32 = 8;
    let mut ids = Vec::new();
    for caller in 0..n {
        ids.push(table.register(caller).unwrap());
    }
    for (caller, id) in ids.iter().enumerate().rev() {
        let line = reply(*id, Json::UInt(*id * 10));
        match table.on_event(ReaderEvent::Line(Some(line))) {
            ReaderAction::Deliver(handle, resp) => {
                assert_eq!(handle as usize, caller);
                assert_eq!(resp.id, *id);
                assert_eq!(call_outcome(resp), Ok(Json::UInt(*id * 10)));
            }
            _ => panic!("reply was not delivered"),
        }
    }
    assert_eq!(table.len(), 0);
}

#[test]
fn second_reply_first_goes_to_second_caller() {
    let mut table: PendingTable<&str> = PendingTable::new();
    let one = table.register("caller one").unwrap();
    let two = table.register("caller two").unwrap();
    assert_eq!((one, two), (1, 2));
    let first = table.on_event(ReaderEvent::Line(Some(reply(2, text("B")))));
    let second = table.on_event(ReaderEvent::Line(Some(reply(1, text("A")))));
    match (first, second) {
        (ReaderAction::Deliver(h2, r2), ReaderAction::Deliver(h1, r1)) => {
            assert_eq!(h1, "caller one");
            assert_eq!(call_outcome(r1), Ok(text("A")));
            assert_eq!(h2, "caller two");
            assert_eq!(call_outcome(r2), Ok(text("B")));
        }
        _ => panic!("replies were not delivered"),
    }
}

#[test]
fn ids_start_at_one_and_strictly_increase() {
    let mut table: PendingTable<()> = PendingTable::new();
    let first = table.next_id().unwrap();
    assert_eq!(first, 1);
    let mut last = first;
    for i in 0..100 {
        let id = if i % 2 == 0 { table.register(()).unwrap() } else { table.next_id().unwrap() };
        assert!(id > last);
        last = id;
        if i % 3 == 0 {
            table.complete(id);
        }
    }
    assert_eq!(last, 101);
}

#[test]
fn non_json_line_is_skipped_and_next_reply_matched() {
    let mut table: PendingTable<u8> = PendingTable::new();
    let id = table.register(9).unwrap();
    // "not-json-at-all" does not parse as JSON: the reader sees no value.
    assert!(matches!(table.on_event(ReaderEvent::Line(None)), ReaderAction::Skip));
    // JSON that is no reply is skipped as well.
    assert!(matches!(table.on_event(ReaderEvent::Line(Some(text("log")))), ReaderAction::Skip));
    assert!(table.is_pending(id));
    match table.on_event(ReaderEvent::Line(Some(reply(id, text("ok"))))) {
        ReaderAction::Deliver(h, r) => {
            assert_eq!(h, 9);
            assert_eq!(call_outcome(r), Ok(text("ok")));
        }
        _ => panic!("reply was not delivered"),
    }
}

#[test]
fn timed_out_call_is_withdrawn_and_late_reply_dropped() {
    let mut table: PendingTable<u8> = PendingTable::new();
    let id = table.register(1).unwrap();
    assert_eq!(timeout_error(), LibreOfficeError::Timeout(30));
    assert_eq!(CALL_TIMEOUT_SECS, 30);
    assert!(table.withdraw(id));
    assert!(!table.withdraw(id));
    assert_eq!(table.len(), 0);
    match table.on_event(ReaderEvent::Line(Some(reply(id, text("late"))))) {
        ReaderAction::Unmatched(r) => assert_eq!(r.id, id),
        _ => panic!("late reply was delivered"),
    }
}

#[test]
fn end_of_output_fails_every_waiting_call() {
    let mut table: PendingTable<u8> = PendingTable::new();
    table.register(1).unwrap();
    table.register(2).unwrap();
    match table.on_event(ReaderEvent::Closed) {
        ReaderAction::Stop(all) => {
            assert_eq!(all.len(), 2);
            assert_eq!(all.get(&1), Some(&1));
            assert_eq!(all.get(&2), Some(&2));
        }
        _ => panic!("reader did not stop"),
    }
    assert_eq!(table.len(), 0);
}

#[test]
fn shutdown_twice_is_the_same_as_once() {
    let once = next_state(SessionState::Ready, SessionEvent::ShutdownRequested);
    let twice = next_state(once, SessionEvent::ShutdownRequested);
    assert_eq!(once, SessionState::ShuttingDown);
    assert_eq!(twice, once);
    let ended = next_state(twice, SessionEvent::ProcessEnded);
    assert_eq!(ended, SessionState::Terminated);
    assert_eq!(next_state(ended, SessionEvent::ShutdownRequested), SessionState::Terminated);
    assert!(!permits_calls(&ended));
}

#[test]
fn handshake_error_reply_fails_construction() {
    let line = obj(vec![
        ("jsonrpc", text("2.0")),
        ("id", Json::UInt(1)),
        ("error", obj(vec![("code", Json::Int(-32000)), ("message", text("boom"))])),
    ]);
    match on_handshake_event(ReaderEvent::Line(Some(line))) {
        HandshakeStep::Done(Err(LibreOfficeError::HandshakeFailed(m))) => {
            assert_eq!(m, "Initialize failed: boom (code -32000)");
        }
        _ => panic!("handshake did not fail"),
    }
    let state = next_state(SessionState::Initializing, SessionEvent::HandshakeFailed);
    assert_eq!(state, SessionState::Terminated);
    assert!(!permits_calls(&state));
}

#[test]
fn handshake_skips_diagnostics_and_accepts_result() {
    assert!(matches!(on_handshake_event(ReaderEvent::Line(None)), HandshakeStep::Continue));
    let result = obj(vec![
        ("protocolVersion", text("2024-11-05")),
        ("capabilities", obj(vec![])),
        ("serverInfo", obj(vec![("name", text("libreoffice-server")), ("version", text("1.0.0"))])),
    ]);
    match on_handshake_event(ReaderEvent::Line(Some(reply(1, result)))) {
        HandshakeStep::Done(Ok(info)) => {
            assert_eq!(info.server_info.name, "libreoffice-server");
            assert_eq!(info.server_info.version, "1.0.0");
        }
        _ => panic!("handshake did not succeed"),
    }
    match on_handshake_event(ReaderEvent::Closed) {
        HandshakeStep::Done(Err(LibreOfficeError::ProcessCrashed(m))) => {
            assert_eq!(m, "Process stdout closed")
        }
        _ => panic!("closed output did not fail the handshake"),
    }
}

#[test]
fn handshake_without_result_or_error_fails() {
    let resp = JsonRpcResponse { jsonrpc: Some("2.0".to_string()), id: 1, result: None, error: None };
    assert_eq!(
        handshake_outcome(resp).err(),
        Some(LibreOfficeError::HandshakeFailed(
            "Initialize response missing result and error".to_string()
        ))
    );
    let resp = JsonRpcResponse { jsonrpc: Some("2.0".to_string()), id: 1, result: Some(text("x")), error: None };
    assert_eq!(
        handshake_outcome(resp).err(),
        Some(LibreOfficeError::HandshakeFailed("Invalid initialize response".to_string()))
    );
}

#[test]
fn list_tools_returns_both_tools() {
    let tool = |name: &str, description: &str| {
        obj(vec![
            ("name", text(name)),
            ("description", text(description)),
            ("inputSchema", obj(vec![("type", text("object"))])),
        ])
    };
    let result = obj(vec![(
        "tools",
        Json::Array(vec![
            tool("create_blank_document", "Create a new blank document"),
            tool("save_document", "Save the current document"),
        ]),
    )]);
    let tools = list_tools_outcome(Ok(result)).unwrap();
    assert_eq!(tools.len(), 2);
    assert_eq!(tools[0].name, "create_blank_document");
    assert_eq!(tools[0].description, "Create a new blank document");
    assert_eq!(tools[1].name, "save_document");
    assert_eq!(tools[1].description, "Save the current document");
    assert!(tools[1].output_schema.is_none());
}

#[test]
fn list_tools_refuses_malformed_result_and_passes_errors_on() {
    let bad = obj(vec![("tools", Json::Array(vec![obj(vec![("name", text("x"))])]))]);
    assert_eq!(
        list_tools_outcome(Ok(bad)).err(),
        Some(LibreOfficeError::InvalidResponse("Failed to parse tools list".to_string()))
    );
    assert_eq!(
        list_tools_outcome(Err(LibreOfficeError::Timeout(30))).err(),
        Some(LibreOfficeError::Timeout(30))
    );
}

#[test]
fn call_outcome_prefers_error_then_result() {
    let err = JsonRpcResponse {
        jsonrpc: Some("2.0".to_string()),
        id: 1,
        result: Some(text("ignored")),
        error: Some(JsonRpcError { code: -32602, message: "Invalid params".to_string(), data: None }),
    };
    assert_eq!(
        call_outcome(err),
        Err(LibreOfficeError::JsonRpcError { code: -32602, message: "Invalid params".to_string() })
    );
    let empty = JsonRpcResponse { jsonrpc: Some("2.0".to_string()), id: 1, result: None, error: None };
    assert_eq!(
        call_outcome(empty),
        Err(LibreOfficeError::InvalidResponse("Response missing result".to_string()))
    );
}

#[test]
fn requests_carry_method_and_params() {
    let init = initialize_request(1);
    assert_eq!(init.method, "initialize");
    assert_eq!(init.id, 1);
    assert_eq!(init.params.get("protocolVersion"), Some(&text("2024-11-05")));
    let note = initialized_notification();
    assert_eq!(note.method, "notifications/initialized");
    let list = list_tools_request(2);
    assert_eq!((list.id, list.method.as_str()), (2, "tools/list"));
    let call = call_tool_request(3, "save_document", obj(vec![("filename", text("a.odt"))]));
    assert_eq!(call.method, "tools/call");
    assert_eq!(call.params.get("name"), Some(&text("save_document")));
    assert_eq!(
        call.params.get("arguments"),
        Some(&obj(vec![("filename", text("a.odt"))]))
    );
}

#[test]
fn replies_without_version_member_reach_their_callers() {
    let mut table: PendingTable<&str> = PendingTable::new();
    let one = table.register("caller one").unwrap();
    let two = table.register("caller two").unwrap();
    let bare = |id: u64, v: &str| obj(vec![("id", Json::UInt(id)), ("result", text(v))]);
    let first = table.on_event(ReaderEvent::Line(Some(bare(two, "B"))));
    let second = table.on_event(ReaderEvent::Line(Some(bare(one, "A"))));
    match (first, second) {
        (ReaderAction::Deliver(h2, r2), ReaderAction::Deliver(h1, r1)) => {
            assert_eq!((h1, call_outcome(r1)), ("caller one", Ok(text("A"))));
            assert_eq!((h2, call_outcome(r2)), ("caller two", Ok(text("B"))));
        }
        _ => panic!("replies were not delivered"),
    }
}

#[test]
fn null_result_is_returned_as_is() {
    let mut table: PendingTable<u8> = PendingTable::new();
    let id = table.register(4).unwrap();
    match table.on_event(ReaderEvent::Line(Some(reply(id, Json::Null)))) {
        ReaderAction::Deliver(4, r) => assert_eq!(call_outcome(r), Ok(Json::Null)),
        _ => panic!("reply was not delivered"),
    }
}

#[test]
fn bare_error_object_fails_the_handshake() {
    let line = obj(vec![(
        "error",
        obj(vec![("code", Json::Int(-32000)), ("message", text("boom"))]),
    )]);
    match on_handshake_event(ReaderEvent::Line(Some(line))) {
        HandshakeStep::Done(Err(LibreOfficeError::HandshakeFailed(m))) => {
            assert_eq!(m, "Initialize failed: boom (code -32000)");
        }
        _ => panic!("handshake did not fail"),
    }
    let malformed = obj(vec![("error", obj(vec![("message", text("boom"))]))]);
    match on_handshake_event(ReaderEvent::Line(Some(malformed))) {
        HandshakeStep::Done(Err(LibreOfficeError::HandshakeFailed(m))) => {
            assert_eq!(m, "Initialize failed: malformed error object");
        }
        _ => panic!("handshake did not fail"),
    }
    let log_line = obj(vec![("level", text("info"))]);
    assert!(matches!(on_handshake_event(ReaderEvent::Line(Some(log_line))), HandshakeStep::Continue));
}

#[test]
fn error_texts_for_users() {
    assert_eq!(LibreOfficeError::Timeout(30).to_text(), "Request timeout after 30 seconds");
    assert_eq!(
        LibreOfficeError::JsonRpcError { code: -32602, message: "Invalid params".to_string() }.to_text(),
        "JSON-RPC error (code -32602): Invalid params"
    );
    assert_eq!(LibreOfficeError::PortInUse(8080).to_text(), "Port 8080 is already in use");
    assert_eq!(
        LibreOfficeError::HandshakeFailed("x".to_string()).to_text(),
        "MCP handshake failed: x"
    );
    assert_eq!(LibreOfficeError::NotInitialized.to_text(), "Service not initialized");
}

#[test]
fn requests_are_version_two() {
    assert_eq!(list_tools_request(5).jsonrpc, "2.0");
    assert_eq!(call_tool_request(6, "t", Json::Null).jsonrpc, "2.0");
    let init = initialize_request(1);
    assert_eq!(init.params.get("capabilities"), Some(&obj(vec![])));
    assert_eq!(
        init.params.get("clientInfo").and_then(|i| i.get("version")),
        Some(&text("0.1.0"))
    );
}
