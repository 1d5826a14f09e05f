use smolpc_codehelper::json::Json;
use smolpc_codehelper::message::{
    JsonRpcError, JsonRpcNotification, JsonRpcRequest, JsonRpcResponse,
};
use smolpc_codehelper::types::{InitializeParams, InitializeResult, ToolCallParams};

fn to_value(j: Json) -> serde_json::Value {
    match j {
        Json::Null => serde_json::Value::Null,
        Json::Bool(b) => serde_json::Value::Bool(b),
        Json::UInt(n) => serde_json::Value::from(n),
        Json::Int(n) => serde_json::Value::from(n),
        Json::Real(t) => serde_json::from_str(&t).unwrap(),
        Json::Str(s) => serde_json::Value::String(s),
        Json::Array(items) => serde_json::Value::Array(items.into_iter().map(to_value).collect()),
        Json::Object(fields) => {
            let mut m = serde_json::Map::new();
            for (k, v) in fields {
                m.insert(k, to_value(v));
            }
            serde_json::Value::Object(m)
        }
    }
}

fn from_value(v: serde_json::Value) -> Json {
    match v {
        serde_json::Value::Null => Json::Null,
        serde_json::Value::Bool(b) => Json::Bool(b),
        serde_json::Value::Number(n) => {
            if let Some(u) = n.as_u64() {
                Json::UInt(u)
            } else if let Some(i) = n.as_i64() {
                Json::Int(i)
            } else {
                Json::Real(n.to_string())
            }
        }
        serde_json::Value::String(s) => Json::Str(s),
        serde_json::Value::Array(items) => Json::Array(items.into_iter().map(from_value).collect()),
        serde_json::Value::Object(m) => {
            Json::Object(m.into_iter().map(|(k, v)| (k, from_value(v))).collect())
        }
    }
}

fn parse(text: &str) -> Json {
    from_value(serde_json::from_str(text).unwrap())
}

fn key_value() -> Json {
    Json::Object(vec![("key".to_string(), Json::Str("value".to_string()))])
}

#[test]
fn test_jsonrpc_request_serialization() {
    let req = JsonRpcRequest::new(1, "test_method", key_value());

    let json_str = serde_json::to_string(&to_value(req.to_json())).unwrap();
    assert!(json_str.contains("\"jsonrpc\":\"2.0\""));
    assert!(json_str.contains("\"id\":1"));
    assert!(json_str.contains("\"method\":\"test_method\""));

    let deserialized = JsonRpcRequest::from_json(parse(&json_str)).unwrap();
    assert_eq!(deserialized.jsonrpc, "2.0");
    assert_eq!(deserialized.id, 1);
    assert_eq!(deserialized.method, "test_method");
}

#[test]
fn test_jsonrpc_response_with_result() {
    let json = r#"{"jsonrpc":"2.0","id":1,"result":{"status":"ok"}}"#;
    let response = JsonRpcResponse::from_json(parse(json)).unwrap();

    assert_eq!(response.jsonrpc.as_deref(), Some("2.0"));
    assert_eq!(response.id, 1);
    assert!(response.result.is_some());
    assert!(response.error.is_none());
}

#[test]
fn test_jsonrpc_response_with_error() {
    let json = r#"{"jsonrpc":"2.0","id":1,"error":{"code":-32602,"message":"Invalid params"}}"#;
    let response = JsonRpcResponse::from_json(parse(json)).unwrap();

    assert_eq!(response.jsonrpc.as_deref(), Some("2.0"));
    assert_eq!(response.id, 1);
    assert!(response.result.is_none());
    assert!(response.error.is_some());

    let error = response.error.unwrap();
    assert_eq!(error.code, -32602);
    assert_eq!(error.message, "Invalid params");
}

#[test]
fn test_initialize_params_default() {
    let params = InitializeParams::default();
    assert_eq!(params.protocol_version, "2024-11-05");
    assert_eq!(params.client_info.name, "smolpc-codehelper");
}

#[test]
fn test_initialize_params_serialization() {
    let params = InitializeParams::default();
    let json = to_value(params.to_json());

    assert_eq!(json["protocolVersion"], "2024-11-05");
    assert_eq!(json["clientInfo"]["name"], "smolpc-codehelper");
}

#[test]
fn test_initialize_result_deserialization() {
    let json = r#"{
        "protocolVersion": "2024-11-05",
        "capabilities": {
            "tools": {"listChanged": false}
        },
        "serverInfo": {
            "name": "libreoffice-server",
            "version": "1.0.0"
        }
    }"#;

    let result = InitializeResult::from_json(parse(json)).unwrap();
    assert_eq!(result.protocol_version, "2024-11-05");
    assert_eq!(result.server_info.name, "libreoffice-server");
    assert!(result.capabilities.tools.is_some());
}

#[test]
fn test_tool_call_params_serialization() {
    let params = ToolCallParams {
        name: "create_blank_document".to_string(),
        arguments: parse(r#"{"filename": "test.odt", "title": "Test Document"}"#),
    };

    let json = to_value(params.to_json());
    assert_eq!(json["name"], "create_blank_document");
    assert_eq!(json["arguments"]["filename"], "test.odt");
}

#[test]
fn test_jsonrpc_notification() {
    let notif = JsonRpcNotification::new("initialized", Json::empty_object());
    let json = to_value(notif.to_json());

    assert_eq!(json["jsonrpc"], "2.0");
    assert_eq!(json["method"], "initialized");
    assert!(json.get("id").is_none());
}

#[test]
fn request_round_trips_through_text() {
    let params = parse(r#"{"a":[1,-2,3.5,null,true],"b":{"c":"d"}}"#);
    let req = JsonRpcRequest::new(42, "tools/call", params);
    let text = serde_json::to_string(&to_value(req.to_json())).unwrap();
    let back = JsonRpcRequest::from_json(parse(&text)).unwrap();
    assert_eq!(back, JsonRpcRequest::new(42, "tools/call", parse(r#"{"a":[1,-2,3.5,null,true],"b":{"c":"d"}}"#)));
}

#[test]
fn response_round_trips_through_text() {
    let ok = JsonRpcResponse {
        jsonrpc: Some("2.0".to_string()),
        id: 7,
        result: Some(Json::Str("A".to_string())),
        error: None,
    };
    let text = serde_json::to_string(&to_value(ok.to_json())).unwrap();
    let back = JsonRpcResponse::from_json(parse(&text)).unwrap();
    assert_eq!(back.id, 7);
    assert_eq!(back.result, Some(Json::Str("A".to_string())));
    assert!(back.error.is_none());

    let failed = JsonRpcResponse {
        jsonrpc: Some("2.0".to_string()),
        id: u64::MAX,
        result: None,
        error: Some(JsonRpcError { code: i32::MIN, message: "boom".to_string(), data: Some(Json::UInt(3)) }),
    };
    let text = serde_json::to_string(&to_value(failed.to_json())).unwrap();
    let back = JsonRpcResponse::from_json(parse(&text)).unwrap();
    assert_eq!(back.id, u64::MAX);
    assert!(back.result.is_none());
    assert_eq!(
        back.error,
        Some(JsonRpcError { code: i32::MIN, message: "boom".to_string(), data: Some(Json::UInt(3)) })
    );
}

#[test]
fn notification_round_trips_through_text() {
    let n = JsonRpcNotification::new("notifications/initialized", Json::empty_object());
    let text = serde_json::to_string(&to_value(n.to_json())).unwrap();
    assert!(!text.contains('\n'));
    let back = JsonRpcNotification::from_json(parse(&text)).unwrap();
    assert_eq!(back, JsonRpcNotification::new("notifications/initialized", Json::empty_object()));
}

#[test]
fn null_result_is_kept() {
    let r = JsonRpcResponse::from_json(parse(r#"{"jsonrpc":"2.0","id":3,"result":null}"#)).unwrap();
    assert_eq!(r.result, Some(Json::Null));
    assert!(r.error.is_none());
    let back = JsonRpcResponse::from_json(parse(&serde_json::to_string(&to_value(r.to_json())).unwrap())).unwrap();
    assert_eq!(back.result, Some(Json::Null));
}

#[test]
fn reply_without_version_member_is_read() {
    let r = JsonRpcResponse::from_json(parse(r#"{"id":2,"result":"B"}"#)).unwrap();
    assert_eq!(r.jsonrpc, None);
    assert_eq!(r.id, 2);
    assert_eq!(r.result, Some(Json::Str("B".to_string())));
    let text = serde_json::to_string(&to_value(r.to_json())).unwrap();
    assert_eq!(text, r#"{"id":2,"result":"B"}"#);
}

#[test]
fn response_without_id_or_with_bad_error_is_refused() {
    assert!(JsonRpcResponse::from_json(parse(r#"{"jsonrpc":"2.0","result":1}"#)).is_none());
    assert!(JsonRpcResponse::from_json(parse(r#"{"jsonrpc":"2.0","id":-1,"result":1}"#)).is_none());
    assert!(JsonRpcResponse::from_json(parse(r#"{"jsonrpc":2,"id":1,"result":1}"#)).is_none());
    assert!(JsonRpcResponse::from_json(parse(r#"{"jsonrpc":"2.0","id":1,"error":{"code":"x","message":"m"}}"#)).is_none());
    assert!(JsonRpcResponse::from_json(parse(r#"{"jsonrpc":"2.0","id":1,"error":{"code":4294967296,"message":"m"}}"#)).is_none());
    assert!(JsonRpcResponse::from_json(parse(r#"[1,2]"#)).is_none());
}

#[test]
fn error_code_reads_from_both_signs() {
    let e = JsonRpcError::from_json(parse(r#"{"code":-32000,"message":"boom"}"#)).unwrap();
    assert_eq!(e.code, -32000);
    let e = JsonRpcError::from_json(parse(r#"{"code":12,"message":"x","data":null}"#)).unwrap();
    assert_eq!(e.code, 12);
    assert_eq!(e.data, Some(Json::Null));
    assert!(JsonRpcError::from_json(parse(r#"{"code":12,"message":"x"}"#)).unwrap().data.is_none());
}

#[test]
fn initialize_result_with_bad_capability_is_refused() {
    let json = r#"{"protocolVersion":"2024-11-05","capabilities":{"tools":{}},"serverInfo":{"name":"s","version":"1"}}"#;
    assert!(InitializeResult::from_json(parse(json)).is_none());
    let json = r#"{"protocolVersion":"2024-11-05","capabilities":{},"serverInfo":{"name":"s"}}"#;
    assert!(InitializeResult::from_json(parse(json)).is_none());
    let json = r#"{"protocolVersion":"2024-11-05","capabilities":{"resources":{"subscribe":true,"listChanged":false},"prompts":null},"serverInfo":{"name":"s","version":"1"}}"#;
    let r = InitializeResult::from_json(parse(json)).unwrap();
    assert!(r.capabilities.prompts.is_none());
    assert_eq!(r.capabilities.resources.unwrap().subscribe, true);
}
