use matrix_mcp_server_r2::error::AppError;
use matrix_mcp_server_r2::json::JsonValue;
use matrix_mcp_server_r2::matrix::client::{check_session_user, client_failure, wait_before_next_sync, ClientStep};
use matrix_mcp_server_r2::mcp::directory::public_rooms_server;
use matrix_mcp_server_r2::mcp::output::check_room_input;
use matrix_mcp_server_r2::mcp::rooms::{check_join_target, check_target_user};
use matrix_mcp_server_r2::mcp::service::{
    allowed_origins, health_report, listen_address, server_failure, SERVER_INSTRUCTIONS, SERVER_NAME,
    SERVER_VERSION,
};
use matrix_mcp_server_r2::mcp::transport::{agent_card, connected_event, session_id, SseQuery};

fn s(x: &str) -> JsonValue {
    JsonValue::Str(x.to_string())
}

fn obj(ms: Vec<(&str, JsonValue)>) -> JsonValue {
    JsonValue::Object(ms.into_iter().map(|(k, v)| (k.to_string(), v)).collect())
}

#[test]
fn session_ids() {
    assert_eq!(session_id(SseQuery { session_id: Some("abc".to_string()) }, 5), "abc");
    assert_eq!(session_id(SseQuery { session_id: None }, 1700000000123), "sess-1700000000123");
    assert_eq!(connected_event("abc"), obj(vec![("session_id", s("abc"))]));
}

#[test]
fn agent_card_says_what_is_offered() {
    assert_eq!(
        agent_card(false),
        obj(vec![
            ("protocol", s("A2A-v1")),
            (
                "capabilities",
                obj(vec![
                    ("streaming", JsonValue::Bool(true)),
                    ("tools", JsonValue::Bool(true)),
                    ("multiModal", JsonValue::Bool(false)),
                ])
            ),
            ("authentication", obj(vec![("required", JsonValue::Bool(false))])),
        ])
    );
}

#[test]
fn health_and_address() {
    assert_eq!(
        health_report("@bot:x"),
        obj(vec![("status", s("healthy")), ("version", s("0.1.0")), ("user_id", s("@bot:x"))])
    );
    assert_eq!(listen_address(3000), "0.0.0.0:3000");
    assert_eq!(listen_address(0), "0.0.0.0:0");
    assert_eq!(SERVER_NAME, "matrix-mcp-server-r2");
    match server_failure("bind") {
        AppError::Unknown(m) => assert_eq!(m, "Server error: bind"),
        other => panic!("unexpected {:?}", other),
    }
}

#[test]
fn cors_origins_are_trimmed_and_checked() {
    assert_eq!(
        allowed_origins(" https://a.example ,http://b.example\t, bad\u{7f}origin"),
        vec!["https://a.example".to_string(), "http://b.example".to_string()]
    );
    assert_eq!(allowed_origins("https://one"), vec!["https://one".to_string()]);
    assert_eq!(allowed_origins("a,,b"), vec!["a".to_string(), "".to_string(), "b".to_string()]);
    assert_eq!(allowed_origins("\u{2003}x\u{3000}"), vec!["x".to_string()]);
}

#[test]
fn identifier_checks() {
    assert!(check_room_input("!room:example.com").is_none());
    assert!(check_room_input("!testroom:localhost").is_none());
    assert!(check_room_input("!").is_none());
    assert!(check_room_input("").unwrap().is_error);
    assert_eq!(
        check_room_input("room:example.com").unwrap().texts,
        vec!["Error: Invalid room ID format: room:example.com".to_string()]
    );
    assert!(check_target_user("@bot:example.com").is_none());
    assert_eq!(
        check_target_user("bot").unwrap().texts,
        vec!["Error: Invalid user ID 'bot': leading sigil is incorrect or missing".to_string()]
    );
    assert!(check_join_target("#r:example.com").is_none());
    assert_eq!(
        check_join_target("r").unwrap().texts,
        vec!["Error: Invalid room ID or alias 'r': leading sigil is incorrect or missing".to_string()]
    );
    assert_eq!(public_rooms_server(&Some("example.com".to_string())), Some("example.com".to_string()));
    assert_eq!(public_rooms_server(&Some("exa mple".to_string())), None);
    assert_eq!(public_rooms_server(&None), None);
}

#[test]
fn server_info_returns_correct_metadata() {
    assert_eq!(SERVER_NAME, "matrix-mcp-server-r2");
    assert_eq!(SERVER_VERSION, "0.1.0");
    assert_eq!(
        SERVER_INSTRUCTIONS,
        "Matrix MCP Server providing room, message, and user management tools."
    );
}

#[test]
fn session_user_must_parse() {
    assert!(check_session_user("@bot:example.com").is_ok());
    match check_session_user("bad-user-id") {
        Err(AppError::InvalidParameter(m)) => {
            assert_eq!(m, "Invalid user ID 'bad-user-id': leading sigil is incorrect or missing")
        }
        other => panic!("unexpected {:?}", other),
    }
}

#[test]
fn client_step_errors_and_pacing() {
    match client_failure(ClientStep::InitialSync, "timed out") {
        AppError::MatrixClient(m) => assert_eq!(m, "Initial sync failed: timed out"),
        other => panic!("unexpected {:?}", other),
    }
    match client_failure(ClientStep::Build, "x") {
        AppError::MatrixClient(m) => assert_eq!(m, "Failed to build client: x"),
        other => panic!("unexpected {:?}", other),
    }
    assert_eq!(wait_before_next_sync(true), 1);
    assert_eq!(wait_before_next_sync(false), 6);
}
