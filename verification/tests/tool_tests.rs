use matrix_mcp_server_r2::error::AppError;
use matrix_mcp_server_r2::json::{JsonNumber, JsonValue};
use matrix_mcp_server_r2::tools::tier0::get_direct_messages::GetDirectMessages;
use matrix_mcp_server_r2::tools::tier0::get_messages_by_date::GetMessagesByDate;
use matrix_mcp_server_r2::tools::tier0::get_my_profile::GetMyProfile;
use matrix_mcp_server_r2::tools::tier0::get_room_info::GetRoomInfo;
use matrix_mcp_server_r2::tools::tier0::get_room_members::GetRoomMembers;
use matrix_mcp_server_r2::tools::tier0::get_room_messages::GetRoomMessages;
use matrix_mcp_server_r2::tools::tier0::get_user_profile::GetUserProfile;
use matrix_mcp_server_r2::tools::tier0::identify_active_users::IdentifyActiveUsers;
use matrix_mcp_server_r2::tools::tier0::list_joined_rooms::ListJoinedRooms;
use matrix_mcp_server_r2::tools::tier0::search_public_rooms::SearchPublicRooms;
use matrix_mcp_server_r2::tools::tier1::join_room::JoinRoom;
use matrix_mcp_server_r2::tools::tier1::leave_room::LeaveRoom;
use matrix_mcp_server_r2::tools::tier1::send_direct_message::SendDirectMessage;
use matrix_mcp_server_r2::tools::tier1::send_message::SendMessage;
use matrix_mcp_server_r2::tools::tier1::set_room_name::SetRoomName;
use matrix_mcp_server_r2::tools::Tool;

const NOTE: &str = "Tool scaffolded - Matrix client integration pending";

fn s(x: &str) -> JsonValue {
    JsonValue::Str(x.to_string())
}

fn n(x: u64) -> JsonValue {
    JsonValue::Number(JsonNumber::PosInt(x))
}

fn obj(ms: Vec<(&str, JsonValue)>) -> JsonValue {
    JsonValue::Object(ms.into_iter().map(|(k, v)| (k.to_string(), v)).collect())
}

fn schema(props: Vec<(&str, JsonValue)>, required: Vec<&str>) -> JsonValue {
    obj(vec![
        ("type", s("object")),
        ("properties", obj(props)),
        ("required", JsonValue::Array(required.into_iter().map(s).collect())),
        ("additionalProperties", JsonValue::Bool(false)),
    ])
}

fn string_prop(d: &str) -> JsonValue {
    obj(vec![("type", s("string")), ("description", s(d))])
}

fn limit_prop(d: &str) -> JsonValue {
    obj(vec![
        ("type", s("integer")),
        ("description", s(d)),
        ("default", n(20)),
        ("minimum", n(1)),
        ("maximum", n(100)),
    ])
}

fn tools() -> Vec<Box<dyn Tool>> {
    vec![
        Box::new(GetDirectMessages),
        Box::new(GetMessagesByDate),
        Box::new(GetMyProfile),
        Box::new(GetRoomInfo),
        Box::new(GetRoomMembers),
        Box::new(GetRoomMessages),
        Box::new(GetUserProfile),
        Box::new(IdentifyActiveUsers),
        Box::new(ListJoinedRooms),
        Box::new(SearchPublicRooms),
        Box::new(JoinRoom),
        Box::new(LeaveRoom),
        Box::new(SendDirectMessage),
        Box::new(SendMessage),
        Box::new(SetRoomName),
    ]
}

#[test]
fn tool_names_are_distinct_and_kebab_case() {
    let names: Vec<&str> = tools().iter().map(|t| t.name()).collect();
    assert_eq!(
        names,
        vec![
            "get-direct-messages",
            "get-messages-by-date",
            "get-my-profile",
            "get-room-info",
            "get-room-members",
            "get-room-messages",
            "get-user-profile",
            "identify-active-users",
            "list-joined-rooms",
            "search-public-rooms",
            "join-room",
            "leave-room",
            "send-direct-message",
            "send-message",
            "set-room-name",
        ]
    );
    let mut sorted = names.clone();
    sorted.sort();
    sorted.dedup();
    assert_eq!(sorted.len(), names.len());
}

#[test]
fn tool_descriptions() {
    assert_eq!(SendMessage.description(), "Send a text message to a Matrix room");
    assert_eq!(JoinRoom.description(), "Join a Matrix room by ID or alias");
    assert_eq!(
        GetRoomInfo.description(),
        "Get detailed information about a Matrix room including name, topic, settings, member count, and encryption status"
    );
    assert_eq!(GetRoomMembers.description(), "Get room members");
}

#[test]
fn argument_free_tools_have_empty_schema() {
    let empty = schema(vec![], vec![]);
    assert_eq!(GetMyProfile.input_schema(), empty);
    assert_eq!(SetRoomName.input_schema(), empty);
    assert_eq!(ListJoinedRooms.input_schema(), empty);
}

#[test]
fn room_info_schema_and_answer() {
    assert_eq!(
        GetRoomInfo.input_schema(),
        schema(
            vec![("roomId", string_prop("Matrix room ID (e.g., !roomid:domain.com)"))],
            vec!["roomId"]
        )
    );
    let out = GetRoomInfo.execute(obj(vec![("roomId", s("!r:x"))])).unwrap();
    assert_eq!(
        out,
        obj(vec![
            ("roomId", s("!r:x")),
            ("name", JsonValue::Null),
            ("topic", JsonValue::Null),
            ("memberCount", n(0)),
            ("isEncrypted", JsonValue::Bool(false)),
            ("message", s(NOTE)),
        ])
    );
}

#[test]
fn room_info_needs_room_id() {
    for args in [obj(vec![]), obj(vec![("roomId", n(3))]), JsonValue::Null] {
        match GetRoomInfo.execute(args) {
            Err(AppError::InvalidParameter(m)) => assert_eq!(m, "roomId is required"),
            other => panic!("unexpected {:?}", other),
        }
    }
}

#[test]
fn room_messages_limit() {
    assert_eq!(
        GetRoomMessages.input_schema(),
        schema(
            vec![
                ("roomId", string_prop("Matrix room ID (e.g., !roomid:domain.com)")),
                ("limit", limit_prop("Maximum number of messages to retrieve (default: 20)")),
            ],
            vec!["roomId"]
        )
    );
    let with_limit = GetRoomMessages.execute(obj(vec![("roomId", s("!r:x")), ("limit", n(5))])).unwrap();
    assert_eq!(
        with_limit,
        obj(vec![
            ("roomId", s("!r:x")),
            ("messages", JsonValue::Array(vec![])),
            ("count", n(0)),
            ("limit", n(5)),
            ("message", s(NOTE)),
        ])
    );
    let default = GetRoomMessages
        .execute(obj(vec![("roomId", s("!r:x")), ("limit", JsonValue::Number(JsonNumber::NegInt(-3)))]))
        .unwrap();
    match default {
        JsonValue::Object(ms) => assert_eq!(ms[3], ("limit".to_string(), n(20))),
        other => panic!("unexpected {:?}", other),
    }
    match GetRoomMessages.execute(obj(vec![("limit", n(5))])) {
        Err(AppError::InvalidParameter(m)) => assert_eq!(m, "roomId is required"),
        other => panic!("unexpected {:?}", other),
    }
}

#[test]
fn user_profile_answer() {
    let out = GetUserProfile.execute(obj(vec![("targetUserId", s("@u:x"))])).unwrap();
    assert_eq!(
        out,
        obj(vec![
            ("userId", s("@u:x")),
            ("displayName", JsonValue::Null),
            ("avatarUrl", JsonValue::Null),
            ("presence", s("unknown")),
            ("message", s(NOTE)),
        ])
    );
    match GetUserProfile.execute(obj(vec![])) {
        Err(AppError::InvalidParameter(m)) => assert_eq!(m, "targetUserId is required"),
        other => panic!("unexpected {:?}", other),
    }
}

#[test]
fn public_room_search_answer() {
    assert_eq!(
        SearchPublicRooms.input_schema(),
        schema(
            vec![
                ("searchTerm", string_prop("Search term to filter rooms by name or topic")),
                ("server", string_prop("Specific server to search rooms on (defaults to your homeserver)")),
                ("limit", limit_prop("Maximum number of rooms to return (default: 20)")),
            ],
            vec![]
        )
    );
    let out = SearchPublicRooms.execute(obj(vec![("searchTerm", s("rust"))])).unwrap();
    assert_eq!(
        out,
        obj(vec![
            ("rooms", JsonValue::Array(vec![])),
            ("count", n(0)),
            ("limit", n(20)),
            ("message", s(NOTE)),
        ])
    );
}

#[test]
fn note_and_action_answers() {
    assert_eq!(GetDirectMessages.execute(JsonValue::Null).unwrap(), obj(vec![("message", s(NOTE))]));
    assert_eq!(
        ListJoinedRooms.execute(obj(vec![])).unwrap(),
        obj(vec![("rooms", JsonValue::Array(vec![])), ("count", n(0)), ("message", s(NOTE))])
    );
    assert_eq!(
        LeaveRoom.execute(JsonValue::Null).unwrap(),
        obj(vec![("success", JsonValue::Bool(true)), ("message", s(NOTE))])
    );
}
