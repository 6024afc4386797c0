use matrix_mcp_server_r2::json::{JsonNumber, JsonValue};
use matrix_mcp_server_r2::mcp::activity::rank_active_users;
use matrix_mcp_server_r2::mcp::directory::{public_rooms_limit, public_rooms_output, PublicRoomSummary};
use matrix_mcp_server_r2::mcp::messages::{date_bounds, messages_in_range, parse_message_events, MessageRecord};
use matrix_mcp_server_r2::mcp::output::{check_room_input, room_label, room_not_found, ToolOutput};
use matrix_mcp_server_r2::mcp::people::{
    all_users_output, count_direct_rooms, direct_messages_output, my_profile_output,
    notification_counts_output, user_profile_output, DmCandidate, RoomNotifications,
};
use matrix_mcp_server_r2::mcp::reading::{
    active_users_output, messages_by_date_output, room_messages_output, room_messages_page_size,
};
use matrix_mcp_server_r2::mcp::rooms::{
    check_join_target, check_target_user, create_room_failure, create_room_invitees, create_room_output,
    join_room_failure, join_room_output, leave_room_output, list_joined_rooms_output, room_info_output,
    room_members_output, MemberSummary, RoomSummary,
};
use matrix_mcp_server_r2::mcp::sending::{
    choose_dm_room, dm_room_request, dm_sent_output, message_kind, message_sent_output, DmRoomChoice,
    MessageKind,
};

fn s(x: &str) -> JsonValue {
    JsonValue::Str(x.to_string())
}

fn obj(ms: Vec<(&str, JsonValue)>) -> JsonValue {
    JsonValue::Object(ms.into_iter().map(|(k, v)| (k.to_string(), v)).collect())
}

fn message_event(sender: &str, body: &str, ts: u64) -> Option<JsonValue> {
    Some(obj(vec![
        ("type", s("m.room.message")),
        ("sender", s(sender)),
        ("content", obj(vec![("body", s(body)), ("msgtype", s("m.text"))])),
        ("origin_server_ts", JsonValue::Number(JsonNumber::PosInt(ts))),
    ]))
}

fn texts(o: &ToolOutput) -> Vec<&str> {
    o.texts.iter().map(|t| t.as_str()).collect()
}

fn member(id: &str, name: Option<&str>) -> MemberSummary {
    MemberSummary { user_id: id.to_string(), display_name: name.map(|n| n.to_string()) }
}

#[test]
fn test_list_joined_rooms_with_one_room() {
    let rooms = vec![RoomSummary {
        name: "Test Room".to_string(),
        room_id: "!testroom:localhost".to_string(),
        joined_members: 2,
    }];
    let out = list_joined_rooms_output(&rooms);
    assert!(!out.is_error);
    assert_eq!(texts(&out), vec!["Room: Test Room (!testroom:localhost) - 2 members"]);
}

#[test]
fn test_list_joined_rooms_empty() {
    let out = list_joined_rooms_output(&vec![]);
    assert_eq!(texts(&out), vec!["No joined rooms found"]);
}

#[test]
fn test_get_room_info() {
    let out = room_info_output(
        "Test Room",
        "!testroom:localhost",
        None,
        Some("A test room for integration tests".to_string()),
        2,
        true,
    );
    assert_eq!(
        texts(&out),
        vec!["Room Information:\nName: Test Room\nRoom ID: !testroom:localhost\nAlias: No alias\nTopic: A test room for integration tests\nMembers: 2\nEncrypted: Yes"]
    );
}

#[test]
fn test_get_room_info_not_found() {
    let out = room_not_found("!missing:localhost");
    assert!(out.is_error);
    assert_eq!(
        texts(&out),
        vec!["Error: Room with ID !missing:localhost not found. You may not be a member of this room."]
    );
}

#[test]
fn room_id_form_is_checked() {
    assert!(check_room_input("!testroom:localhost").is_none());
    let bad = check_room_input("testroom").unwrap();
    assert!(bad.is_error);
    assert_eq!(texts(&bad), vec!["Error: Invalid room ID format: testroom"]);
}

#[test]
fn test_get_room_members() {
    let ms = vec![member("@alice:localhost", Some("Alice")), member("@bob:localhost", None)];
    let out = room_members_output(&Ok(ms), "Test Room");
    assert_eq!(texts(&out), vec!["Alice (@alice:localhost)", "@bob:localhost (@bob:localhost)"]);
    let failed = room_members_output(&Err("boom".to_string()), "Test Room");
    assert!(failed.is_error);
    assert_eq!(texts(&failed), vec!["Error: Failed to get room members - boom"]);
    let empty = room_members_output(&Ok(vec![]), "Test Room");
    assert_eq!(texts(&empty), vec!["No members found in room Test Room"]);
}

#[test]
fn test_get_my_profile() {
    let out = my_profile_output(Some("@bot:localhost".to_string()), Some("MCP Bot".to_string()), None, &vec![2, 5, 2]);
    assert_eq!(
        texts(&out),
        vec!["My Profile: @bot:localhost\nDisplay Name: MCP Bot\nAvatar: No avatar set\nJoined Rooms: 3\nDirect Messages: 2"]
    );
    assert_eq!(count_direct_rooms(&vec![2, 3, 2, 1]), 2);
}

#[test]
fn user_profile_lists_shared_rooms() {
    let shared = vec!["#a:x".to_string(), "!b:x".to_string()];
    let out = user_profile_output("@u:x", None, Some("mxc://x/y".to_string()), &shared);
    assert_eq!(
        texts(&out),
        vec!["User Profile: @u:x\nDisplay Name: No display name set\nAvatar: mxc://x/y\nShared Rooms (up to 5): #a:x, !b:x"]
    );
    let none = user_profile_output("@u:x", Some("U".to_string()), None, &vec![]);
    assert!(texts(&none)[0].ends_with("Shared Rooms (up to 5): None visible"));
    assert!(check_target_user("@u:x").is_none());
    assert!(check_target_user("u").unwrap().is_error);
}

#[test]
fn test_get_notification_counts() {
    let rooms = vec![
        RoomNotifications { room_id: "!a:x".to_string(), name: "A".to_string(), notification_count: 3, highlight_count: 1 },
        RoomNotifications { room_id: "!b:x".to_string(), name: "B".to_string(), notification_count: 0, highlight_count: 0 },
    ];
    let out = notification_counts_output(&rooms, &None);
    assert_eq!(
        texts(&out),
        vec![
            "Notification Summary:\nTotal unread messages: 3\nTotal mentions/highlights: 1\nRooms with notifications: 1",
            "A (!a:x)\nUnread: 3 messages\nMentions: 1",
        ]
    );
    let one = notification_counts_output(&rooms, &Some("!b:x".to_string()));
    assert_eq!(texts(&one), vec!["B (!b:x)\nUnread: 0 messages\nMentions: 0"]);
    let missing = notification_counts_output(&rooms, &Some("!c:x".to_string()));
    assert!(missing.is_error);
    assert_eq!(texts(&missing), vec!["Error: Room with ID !c:x not found."]);
    let quiet = notification_counts_output(&vec![rooms[1].clone_counts()], &None);
    assert_eq!(texts(&quiet), vec!["No unread notifications across all rooms"]);
}

trait CloneCounts {
    fn clone_counts(&self) -> RoomNotifications;
}

impl CloneCounts for RoomNotifications {
    fn clone_counts(&self) -> RoomNotifications {
        RoomNotifications {
            room_id: self.room_id.clone(),
            name: self.name.clone(),
            notification_count: self.notification_count,
            highlight_count: self.highlight_count,
        }
    }
}

#[test]
fn test_send_message() {
    let out = message_sent_output("Test Room", "$sent1", &None, &None);
    assert_eq!(
        texts(&out),
        vec!["Message sent successfully to Test Room\nEvent ID: $sent1\nMessage type: text"]
    );
    let reply = message_sent_output("R", "$e", &Some("emote".to_string()), &Some("$orig".to_string()));
    assert_eq!(texts(&reply), vec!["Message sent successfully to R\nEvent ID: $e\nMessage type: emote (reply to $orig)"]);
    assert_eq!(message_kind(&Some("html".to_string())), MessageKind::Html);
    assert_eq!(message_kind(&Some("other".to_string())), MessageKind::Text);
    assert_eq!(message_kind(&None), MessageKind::Text);
}

#[test]
fn direct_message_answers() {
    let out = dm_sent_output("@u:x", "U", "!dm:x", "$e", true);
    assert_eq!(
        texts(&out),
        vec!["Direct message sent successfully to @u:x\nRoom: U (!dm:x)\nEvent ID: $e\nNew DM room created"]
    );
    let rooms = vec![
        DmCandidate {
            room_id: "!dm:x".to_string(),
            joined_members: 2,
            members: Some(vec![member("@me:x", None), member("@u:x", Some("U"))]),
            notification_count: 1,
            highlight_count: 0,
        },
        DmCandidate { room_id: "!big:x".to_string(), joined_members: 5, members: None, notification_count: 9, highlight_count: 9 },
    ];
    let listed = direct_messages_output(&rooms, Some("@me:x".to_string()), None);
    assert_eq!(
        texts(&listed),
        vec!["Found 1 direct message conversation:", "U (@u:x)\nRoom ID: !dm:x\nUnread: 1 messages\nMentions: 0"]
    );
    let none = direct_messages_output(&vec![], None, None);
    assert_eq!(texts(&none), vec!["No direct message conversations found"]);
}

#[test]
fn all_users_once_each() {
    let ms = vec![member("@a:x", Some("A")), member("@b:x", None), member("@a:x", Some("Other"))];
    let out = all_users_output(&ms);
    assert_eq!(texts(&out), vec!["A (@a:x)", "@b:x (@b:x)"]);
    assert_eq!(texts(&all_users_output(&vec![])), vec!["No users found in the client cache"]);
}

#[test]
fn timeline_messages_are_read() {
    let events = vec![
        message_event("@a:x", "hello", 10),
        None,
        Some(obj(vec![("event", message_event("@b:x", "wrapped", 20).unwrap())])),
        message_event("@c:x", "", 30),
        Some(obj(vec![("type", s("m.room.member")), ("sender", s("@d:x"))])),
        Some(obj(vec![("type", s("m.room.message")), ("content", obj(vec![("body", s("anon"))]))])),
    ];
    let rs = parse_message_events(&events);
    let got: Vec<(&str, &str, i64)> = rs.iter().map(|r| (r.sender.as_str(), r.body.as_str(), r.ts)).collect();
    assert_eq!(got, vec![("@a:x", "hello", 10), ("@b:x", "wrapped", 20), ("unknown", "anon", 0)]);
}

#[test]
fn room_messages_respect_the_limit() {
    let events = vec![message_event("@a:x", "one", 1), message_event("@b:x", "two", 2)];
    assert_eq!(texts(&room_messages_output(&events, Some(1), "R")), vec!["@a:x: one"]);
    assert_eq!(texts(&room_messages_output(&events, None, "R")), vec!["@a:x: one", "@b:x: two"]);
    assert_eq!(texts(&room_messages_output(&events, Some(-4), "R")), vec!["@a:x: one"]);
    assert_eq!(texts(&room_messages_output(&vec![], None, "R")), vec!["No messages found in room R"]);
}

#[test]
fn dates_bound_the_range() {
    assert_eq!(
        date_bounds("2024-01-01T00:00:00Z", "2024-01-02T00:00:00+01:00"),
        (1704067200000, 1704150000000)
    );
    assert_eq!(date_bounds("yesterday", "tomorrow"), (0, i64::MAX));
    let rs = vec![
        MessageRecord { sender: "a".to_string(), body: "x".to_string(), ts: 5 },
        MessageRecord { sender: "b".to_string(), body: "y".to_string(), ts: 15 },
        MessageRecord { sender: "c".to_string(), body: "z".to_string(), ts: 10 },
    ];
    let kept = messages_in_range(&rs, 10, 15);
    let got: Vec<&str> = kept.iter().map(|r| r.sender.as_str()).collect();
    assert_eq!(got, vec!["b", "c"]);
    let events = vec![message_event("@a:x", "old", 1000), message_event("@b:x", "new", 1704067200001)];
    let out = messages_by_date_output(&events, "2024-01-01T00:00:00Z", "2024-12-31T00:00:00Z", "R");
    assert_eq!(texts(&out), vec!["@b:x: new"]);
    let none = messages_by_date_output(&events, "2030-01-01T00:00:00Z", "2031-01-01T00:00:00Z", "R");
    assert_eq!(
        texts(&none),
        vec!["No messages found in room R between 2030-01-01T00:00:00Z and 2031-01-01T00:00:00Z"]
    );
}

#[test]
fn most_active_senders_first() {
    let rs: Vec<MessageRecord> = ["b", "a", "a", "c", "b", "a"]
        .iter()
        .map(|s| MessageRecord { sender: s.to_string(), body: "m".to_string(), ts: 0 })
        .collect();
    let ranked = rank_active_users(&rs, 10);
    let got: Vec<(&str, usize)> = ranked.iter().map(|(s, n)| (s.as_str(), *n)).collect();
    assert_eq!(got, vec![("a", 3), ("b", 2), ("c", 1)]);
    let top = rank_active_users(&rs, 2);
    assert_eq!(top.len(), 2);
    let events = vec![message_event("@a:x", "1", 1), message_event("@b:x", "2", 2), message_event("@a:x", "3", 3)];
    assert_eq!(
        texts(&active_users_output(&events, None, "R")),
        vec!["@a:x: 2 messages", "@b:x: 1 messages"]
    );
    assert_eq!(texts(&active_users_output(&vec![], None, "R")), vec!["No message activity found in room R"]);
}

#[test]
fn public_room_directory() {
    assert_eq!(public_rooms_limit(None), 20);
    assert_eq!(public_rooms_limit(Some(0)), 1);
    assert_eq!(public_rooms_limit(Some(50)), 50);
    assert_eq!(public_rooms_limit(Some(4294967296)), u32::MAX);
    assert_eq!(public_rooms_limit(Some(i64::MAX)), u32::MAX);
    let rooms = vec![PublicRoomSummary {
        room_id: "!p:x".to_string(),
        name: Some("Rust".to_string()),
        canonical_alias: None,
        topic: None,
        num_joined_members: 42,
    }];
    let out = public_rooms_output(&Some("rust".to_string()), &rooms);
    assert_eq!(
        texts(&out),
        vec!["Found 1 public rooms matching \"rust\":", "Rust (!p:x)\nTopic: No topic\nMembers: 42\nRoom ID: !p:x"]
    );
    let none = public_rooms_output(&None, &vec![]);
    assert_eq!(texts(&none), vec!["No public rooms found"]);
}

#[test]
fn room_actions() {
    assert_eq!(
        texts(&leave_room_output("R", "!r:x", &Some("bye".to_string()))),
        vec!["Successfully left room: R\nRoom ID: !r:x\nReason: bye"]
    );
    assert_eq!(
        texts(&join_room_output("#r:x", "!r:x")),
        vec!["Successfully joined room\nRoom ID: !r:x\nJoined via alias: #r:x"]
    );
    assert_eq!(texts(&join_room_failure("#r:x", "M_NOT_FOUND: gone")), vec!["Error: Room #r:x not found"]);
    assert_eq!(texts(&join_room_failure("#r:x", "M_FORBIDDEN")), vec!["Error: Access denied to room #r:x"]);
    assert_eq!(texts(&join_room_failure("#r:x", "timeout")), vec!["Error: Failed to join room #r:x - timeout"]);
    assert!(check_join_target("#r:x").is_none());
    assert!(check_join_target("!r:x").is_none());
    assert!(check_join_target("r").unwrap().is_error);
    assert_eq!(room_label(None), "Unnamed Room");
}

#[test]
fn room_creation() {
    let invites = vec!["@a:x".to_string(), "nope".to_string(), "@b:y".to_string()];
    assert_eq!(create_room_invitees(&invites), vec!["@a:x".to_string(), "@b:y".to_string()]);
    let out = create_room_output(
        "@me:example.org",
        "Team",
        "!t:example.org",
        &Some("team".to_string()),
        true,
        &None,
        &Some(vec!["@a:x".to_string()]),
    );
    assert_eq!(
        texts(&out),
        vec!["Successfully created room: Team\nRoom ID: !t:example.org\nAlias: #team:example.org\nPrivacy: Private\nTopic: No topic set\nInvited users: @a:x"]
    );
    assert_eq!(
        texts(&create_room_failure("M_ROOM_IN_USE", &Some("team".to_string()), "Team")),
        vec!["Error: Room alias \"team\" is already in use"]
    );
    assert_eq!(
        texts(&create_room_failure("M_FORBIDDEN", &None, "Team")),
        vec!["Error: You don't have permission to create rooms"]
    );
}

#[test]
fn page_size_follows_the_limit() {
    assert_eq!(room_messages_page_size(None), 20);
    assert_eq!(room_messages_page_size(Some(-3)), 1);
    assert_eq!(room_messages_page_size(Some(75)), 75);
    assert_eq!(room_messages_page_size(Some(1 << 40)), u32::MAX);
}

#[test]
fn calendar_dates_bound_at_midnight() {
    assert_eq!(date_bounds("2023-11-15", "2023-11-16T00:00:00Z"), (1700006400000, 1700092800000));
    assert_eq!(date_bounds("2023-11-15", "2023-11-16"), (1700006400000, 1700092800000));
    assert_eq!(date_bounds("2023-02-30", "nope"), (0, i64::MAX));
    let events = vec![message_event("@a:x", "first", 1700000000000), message_event("@b:x", "second", 1700000060000)];
    let out = messages_by_date_output(&events, "2023-11-15", "2023-11-16T00:00:00Z", "Test Room");
    assert_eq!(
        texts(&out),
        vec!["No messages found in room Test Room between 2023-11-15 and 2023-11-16T00:00:00Z"]
    );
    let out = messages_by_date_output(&events, "2023-11-14", "2023-11-15", "Test Room");
    assert_eq!(texts(&out), vec!["@a:x: first", "@b:x: second"]);
}

#[test]
fn direct_message_room_choice() {
    assert_eq!(choose_dm_room(&vec![]), DmRoomChoice::CreateNew);
    assert_eq!(choose_dm_room(&vec![(3, true), (2, false), (2, true), (2, true)]), DmRoomChoice::Reuse(2));
    assert_eq!(choose_dm_room(&vec![(3, true), (2, false)]), DmRoomChoice::CreateNew);
    let req = dm_room_request("@u:x");
    assert!(req.is_direct);
    assert!(req.trusted_private_chat);
    assert_eq!(req.invite, vec!["@u:x".to_string()]);
}
