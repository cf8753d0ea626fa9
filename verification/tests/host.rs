use codex_desktop_linux::assets::AssetLedger;
use codex_desktop_linux::frame::{encode_frame, frame_length, native_is_little_endian};
use codex_desktop_linux::handshake::rewrite_proxy_websocket_handshake;
use codex_desktop_linux::pending::PendingTable;
use codex_desktop_linux::rollout::{line_marks_turn_complete, session_turn};
use codex_desktop_linux::router::{
    remove_pending_requests_for_client, select_single_client_id, ChromeAction,
    ChromeClientRouteError, ClientAction, MessageKind, PendingChromeRequest,
    PendingClientRequest, Router,
};
use codex_desktop_linux::rollout::is_missing_get_version_message;
use codex_desktop_linux::runtime::{
    extension_info, runtime_hello, runtime_method, validate_runtime_constraints,
    RuntimeConstraints, RuntimeMethod, MANIFEST_SCHEMA_VERSION, NATIVE_HOST_PROTOCOL_VERSION,
};
use serde_json::Value;

fn json(text: &str) -> Value {
    serde_json::from_str(text).unwrap()
}

fn request(id: Value, method: &str) -> MessageKind<Value> {
    MessageKind::Request {
        id,
        method: method.to_string(),
    }
}

fn response(id: &str) -> MessageKind<Value> {
    MessageKind::Response {
        id: Value::String(id.to_string()),
        id_str: Some(id.to_string()),
    }
}

#[test]
fn frame_round_trip_uses_native_length_prefix() {
    let message = json(r#"{ "jsonrpc": "2.0", "id": "1", "method": "ping" }"#);
    let body = serde_json::to_vec(&message).unwrap();
    let little_endian = native_is_little_endian();
    let encoded = encode_frame(&body, little_endian).unwrap();

    let length = u32::from_ne_bytes(encoded[..4].try_into().unwrap()) as usize;
    assert_eq!(length, encoded.len() - 4);

    let header: [u8; 4] = encoded[..4].try_into().unwrap();
    let announced = frame_length(&header, little_endian) as usize;
    let decoded: Value = serde_json::from_slice(&encoded[4..4 + announced]).unwrap();
    assert_eq!(decoded, message);
}

#[test]
fn app_server_proxy_strips_only_the_matching_extension_origin() {
    let request = "GET /?clientId=sidepanel-window-42 HTTP/1.1\r\n\
Host: 127.0.0.1:12345\r\n\
Connection: keep-alive, Upgrade\r\n\
Upgrade: websocket\r\n\
Sec-WebSocket-Key: SGVsbG9Db2RleDEyMzQ1Ng==\r\n\
Sec-WebSocket-Version: 13\r\n\
Origin: chrome-extension://abcdefghijklmnopabcdefghijklmnop\r\n\
Sec-WebSocket-Extensions: permessage-deflate\r\n\
\r\n\
early-bytes";

    let rewritten = rewrite_proxy_websocket_handshake(
        request.as_bytes(),
        Some("chrome-extension://abcdefghijklmnopabcdefghijklmnop"),
    )
    .unwrap();
    let rewritten_text = String::from_utf8(rewritten).unwrap();

    assert!(rewritten_text.starts_with("GET /?clientId=sidepanel-window-42 HTTP/1.1\r\n"));
    assert!(!rewritten_text.to_ascii_lowercase().contains("\r\norigin:"));
    assert!(rewritten_text.contains("Sec-WebSocket-Extensions: permessage-deflate\r\n"));
    assert!(rewritten_text.ends_with("\r\nearly-bytes"));
}

#[test]
fn app_server_proxy_rejects_a_different_browser_origin() {
    let request = "GET / HTTP/1.1\r\n\
Host: 127.0.0.1:12345\r\n\
Connection: Upgrade\r\n\
Upgrade: websocket\r\n\
Sec-WebSocket-Key: SGVsbG9Db2RleDEyMzQ1Ng==\r\n\
Origin: https://attacker.example\r\n\
\r\n";

    let error = rewrite_proxy_websocket_handshake(
        request.as_bytes(),
        Some("chrome-extension://abcdefghijklmnopabcdefghijklmnop"),
    )
    .unwrap_err();

    assert!(error.contains("Origin is not the connected extension"));
}

#[test]
fn extracts_session_turn_from_browser_request() {
    let message = json(
        r#"{
            "jsonrpc": "2.0",
            "id": "request-1",
            "method": "getTabs",
            "params": {
                "session_id": "session-1",
                "turn_id": "turn-1"
            }
        }"#,
    );
    let params = message.get("params").unwrap();

    assert_eq!(
        session_turn(
            params.get("session_id").and_then(Value::as_str),
            params.get("turn_id").and_then(Value::as_str),
        ),
        Some(("session-1".to_string(), "turn-1".to_string()))
    );
}

#[test]
fn recognizes_task_complete_rollout_line() {
    let line = r#"{"timestamp":"2026-05-09T12:00:00Z","type":"event_msg","payload":{"type":"task_complete","turn_id":"turn-1"}}"#;
    assert!(line_marks_turn_complete(line, "turn-1"));
    assert!(!line_marks_turn_complete(line, "turn-2"));
}

#[test]
fn rejects_chrome_request_routing_without_exactly_one_client() {
    let clients: Vec<usize> = Vec::new();
    assert_eq!(
        select_single_client_id(&clients),
        Err(ChromeClientRouteError::NoClients)
    );

    let mut clients = vec![7];
    assert_eq!(select_single_client_id(&clients), Ok(7));

    clients.push(8);
    assert_eq!(
        select_single_client_id(&clients),
        Err(ChromeClientRouteError::MultipleClients)
    );
}

#[test]
fn replacing_browser_client_evicts_stale_clients_and_pending_requests() {
    let mut state: Router<Value> = Router::new(4242);

    let (first_client_id, evicted_clients) = state.replace_with_client();
    assert!(evicted_clients.is_empty());
    assert!(state.has_client(first_client_id));

    let forwarded = state.handle_client_message(
        first_client_id,
        request(Value::String("client-request-1".to_string()), "getTabs"),
    );
    assert!(matches!(forwarded, ClientAction::ForwardRequest { .. }));
    let forwarded = state.handle_chrome_message(
        request(Value::String("chrome-request-1".to_string()), "getTabs"),
        false,
    );
    assert!(matches!(forwarded, ChromeAction::ForwardRequest { .. }));
    assert!(state.has_pending_requests());

    let (second_client_id, evicted_clients) = state.replace_with_client();

    assert_ne!(first_client_id, second_client_id);
    assert_eq!(evicted_clients.len(), 1);
    assert_eq!(evicted_clients[0], first_client_id);
    assert!(!state.has_client(first_client_id));
    assert!(state.has_client(second_client_id));
    assert!(!state.has_pending_requests());
}

#[test]
fn evicted_client_requests_are_ignored() {
    let mut state: Router<Value> = Router::new(4242);

    let action = state.handle_client_message(99, request(Value::from(1), "getTabs"));

    assert!(matches!(action, ClientAction::Ignore));
    assert!(!state.has_pending_requests());
    assert_eq!(state.next_chrome_id(), 1);
}

#[test]
fn forwards_client_raw_cdp_call_requests_to_chrome_without_filtering() {
    let mut state: Router<Value> = Router::new(4242);
    let (client_id, _) = state.replace_with_client();
    assert_eq!(client_id, 1);

    let action = state.handle_client_message(
        1,
        request(Value::String("client-cdp-call-1".to_string()), "tab_cdp_call"),
    );

    let chrome_id = "linux-4242-1".to_string();
    match action {
        ClientAction::ForwardRequest { chrome_id: id } => assert_eq!(id, chrome_id),
        _ => panic!("the request must be forwarded to Chrome"),
    }
    let pending = state.pending_chrome_request(&chrome_id).unwrap();
    assert_eq!(pending.client_id, 1);
    assert_eq!(pending.client_request_id, Value::String("client-cdp-call-1".to_string()));
    assert!(!pending.fallback_extension_info);
}

#[test]
fn forwards_client_raw_cdp_event_requests_to_chrome_without_filtering() {
    let mut state: Router<Value> = Router::new(4242);
    let (client_id, _) = state.replace_with_client();

    let action = state.handle_client_message(
        client_id,
        request(Value::String("client-cdp-events-1".to_string()), "tab_cdp_events"),
    );

    match action {
        ClientAction::ForwardRequest { chrome_id } => {
            assert_eq!(chrome_id, "linux-4242-1".to_string())
        }
        _ => panic!("the request must be forwarded to Chrome"),
    }
}

#[test]
fn forwards_chrome_raw_cdp_responses_to_the_requesting_client() {
    let mut state: Router<Value> = Router::new(1);
    let (client_id, _) = state.replace_with_client();
    state.handle_client_message(
        client_id,
        request(Value::String("client-cdp-call-1".to_string()), "tab_cdp_call"),
    );
    assert!(state.has_pending_chrome_request("linux-1-1"));

    let action = state.handle_chrome_message(response("linux-1-1"), false);

    match action {
        ChromeAction::ForwardToClient { client_id: to, id } => {
            assert_eq!(to, 1);
            assert_eq!(id, Value::String("client-cdp-call-1".to_string()));
        }
        _ => panic!("the response must go back to the client"),
    }
    assert!(!state.has_pending_requests());
}

#[test]
fn get_info_falls_back_when_runtime_get_version_is_missing() {
    let mut state: Router<Value> = Router::new(1);
    let (client_id, _) = state.replace_with_client();
    state.handle_client_message(client_id, request(Value::String("info-1".to_string()), "getInfo"));
    assert!(state.pending_chrome_request("linux-1-1").unwrap().fallback_extension_info);

    let missing =
        is_missing_get_version_message(Some("chrome.runtime.getVersion is not a function"));
    let action = state.handle_chrome_message(response("linux-1-1"), missing);

    match action {
        ChromeAction::ExtensionInfo { client_id: to, id } => {
            assert_eq!(to, 1);
            assert_eq!(id, Value::String("info-1".to_string()));
        }
        _ => panic!("getInfo must fall back to the extension description"),
    }
    let info = extension_info(Some("abcdefghijklmnopabcdefghijklmnop"));
    assert_eq!(info.kind, "extension");
    assert_eq!(info.version, "unknown");
    assert_eq!(info.extension_id.as_deref(), Some("abcdefghijklmnopabcdefghijklmnop"));
    assert!(!state.has_pending_requests());
}

#[test]
fn disconnect_cleanup_removes_pending_state_for_client() {
    let mut pending_chrome: PendingTable<PendingChromeRequest<Value>> = PendingTable::new();
    pending_chrome.insert(
        "keep".to_string(),
        PendingChromeRequest {
            client_id: 1,
            client_request_id: Value::String("chrome-request-1".to_string()),
            fallback_extension_info: false,
        },
    );
    pending_chrome.insert(
        "drop".to_string(),
        PendingChromeRequest {
            client_id: 2,
            client_request_id: Value::String("chrome-request-2".to_string()),
            fallback_extension_info: false,
        },
    );
    let mut pending_client: PendingTable<PendingClientRequest<Value>> = PendingTable::new();
    pending_client.insert(
        "keep".to_string(),
        PendingClientRequest {
            client_id: 1,
            chrome_request_id: Value::String("client-request-1".to_string()),
        },
    );
    pending_client.insert(
        "drop".to_string(),
        PendingClientRequest {
            client_id: 2,
            chrome_request_id: Value::String("client-request-2".to_string()),
        },
    );

    remove_pending_requests_for_client(&mut pending_chrome, &mut pending_client, 2);

    assert!(pending_chrome.contains_key("keep"));
    assert!(!pending_chrome.contains_key("drop"));
    assert!(pending_client.contains_key("keep"));
    assert!(!pending_client.contains_key("drop"));
}

#[test]
fn tab_context_asset_lifecycle_is_confined_to_private_runtime_directory() {
    let root = "/run/user/1000/codex-chrome-assets-1";
    let mut ledger = AssetLedger::new(7);
    let (asset_id, path) = ledger.reserve(root, "../../report?.txt");
    assert_eq!(asset_id, "linux-7-1");
    assert_eq!(std::path::Path::new(&path).parent(), Some(std::path::Path::new(root)));
    assert!(path.ends_with("report_.txt"));
    ledger.register(asset_id.clone(), path.clone());

    let written = ledger.check_append(&asset_id, b"hello".len()).unwrap();
    assert_eq!(written, 5);
    ledger.record_written(&asset_id, written);

    let (finished_path, was_open) = ledger.finish(&asset_id).unwrap();
    assert_eq!(finished_path, path);
    assert!(was_open);
    let late = ledger.check_append(&asset_id, 1).unwrap_err();
    assert!(late.message.contains("already finalized"));

    assert_eq!(ledger.remove(&asset_id), Some(path));
    let unknown = ledger.check_append(&asset_id, 1).unwrap_err();
    assert_eq!(unknown.message, format!("Unknown browser asset id: {asset_id}"));
}

#[test]
fn runtime_hello_uses_protocol_v2_without_a_legacy_client() {
    let mut state: Router<Value> = Router::new(4242);
    let message = json(
        r#"{
            "jsonrpc": "2.0",
            "id": "hello-1",
            "method": "codexRuntime/hello",
            "params": {
                "constraints": {
                    "requiredAppServerProtocolVersion": 2,
                    "requiredNativeHostProtocolVersion": 2
                }
            }
        }"#,
    );
    let method = message["method"].as_str().unwrap();

    let action = state.handle_chrome_message(request(message["id"].clone(), method), false);

    assert!(matches!(action, ChromeAction::RuntimeRequest));
    assert_eq!(runtime_method(method), RuntimeMethod::Hello);
    let constraints = &message["params"]["constraints"];
    let constraints = RuntimeConstraints {
        required_native_host_protocol_version: constraints["requiredNativeHostProtocolVersion"].as_u64(),
        required_app_server_protocol_version: constraints["requiredAppServerProtocolVersion"].as_u64(),
        extension_id: None,
        extension_build_channel: None,
    };
    assert!(validate_runtime_constraints(None, None, Some(&constraints)).is_ok());
    let hello = runtime_hello();
    assert_eq!(hello.manifest_schema_version, 2);
    assert_eq!(hello.native_host_protocol_version, 2);
    assert_eq!(hello.supported_protocol_versions, vec![2]);
    assert_eq!(MANIFEST_SCHEMA_VERSION, 2);
    assert_eq!(NATIVE_HOST_PROTOCOL_VERSION, 2);
    assert!(!state.has_pending_requests());
}

#[test]
fn getinfo_fallback_without_extension_id_has_no_metadata() {
    let info = extension_info(None);
    assert_eq!(info.name, "Chrome");
    assert_eq!(info.tab_capabilities.len(), 1);
    assert_eq!(info.tab_capabilities[0].0, "pageAssets");
    assert!(info.extension_id.is_none());
    assert_eq!(runtime_hello().supported_methods.len(), 8);
}
