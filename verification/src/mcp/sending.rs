//! The answers of the tools that send messages.

use vstd::prelude::*;

use crate::config::opt_view;
use crate::mcp::output::{error_view, failure_view, single_view, ToolOutput};
use crate::text::{owned, str_eq};

verus! {

/// How a message is sent: as plain text, as HTML, or as an emote.
#[derive(Debug, Clone, Copy, PartialEq, Eq)]
pub enum MessageKind {
    Text,
    Html,
    Emote,
}

/// The kind of message a `messageType` asks for: `html` and `emote` are
/// recognised, anything else (or nothing) sends plain text.
pub open spec fn spec_message_kind(message_type: Option<Seq<char>>) -> MessageKind {
    match message_type {
        Some(t) => if t == "html"@ {
            MessageKind::Html
        } else if t == "emote"@ {
            MessageKind::Emote
        } else {
            MessageKind::Text
        },
        None => MessageKind::Text,
    }
}

/// The kind of message a `messageType` asks for.
pub fn message_kind(message_type: &Option<String>) -> (r: MessageKind)
    ensures
        r == spec_message_kind(opt_view(*message_type)),
{
    match message_type {
        Some(t) => if str_eq(t.as_str(), "html") {
            MessageKind::Html
        } else if str_eq(t.as_str(), "emote") {
            MessageKind::Emote
        } else {
            MessageKind::Text
        },
        None => MessageKind::Text,
    }
}

/// Each documented `messageType` is sent as its own kind: `emote` exactly as
/// an emote, `html` exactly as HTML, and every other value, or none, as plain
/// text.
pub proof fn law_message_kinds(message_type: Option<Seq<char>>)
    ensures
        (spec_message_kind(message_type) == MessageKind::Emote) <==> (message_type == Some("emote"@)),
        (spec_message_kind(message_type) == MessageKind::Html) <==> (message_type == Some("html"@)),
        (spec_message_kind(message_type) == MessageKind::Text) <==> (message_type != Some("emote"@)
            && message_type != Some("html"@)),
{
    reveal_strlit("emote");
    reveal_strlit("html");
    assert("html"@.len() != "emote"@.len());
    assert("html"@ != "emote"@);
}

/// The message type as the answer names it: as given, or `text`.
pub open spec fn spec_message_type_label(message_type: Option<Seq<char>>) -> Seq<char> {
    match message_type {
        Some(t) => t,
        None => "text"@,
    }
}

/// The answer of `send-message` once the message is sent.
pub open spec fn message_sent_text(
    room_name: Seq<char>,
    event_id: Seq<char>,
    message_type: Option<Seq<char>>,
    reply_to: Option<Seq<char>>,
) -> Seq<char> {
    let base = "Message sent successfully to "@ + room_name + "\nEvent ID: "@ + event_id + "\nMessage type: "@
        + spec_message_type_label(message_type);
    match reply_to {
        Some(r) => base + " (reply to "@ + r + ")"@,
        None => base,
    }
}

/// The answer of `send-message` once the message is sent.
pub fn message_sent_output(
    room_name: &str,
    event_id: &str,
    message_type: &Option<String>,
    reply_to: &Option<String>,
) -> (r: ToolOutput)
    ensures
        r@ == single_view(
            message_sent_text(room_name@, event_id@, opt_view(*message_type), opt_view(*reply_to)),
        ),
{
    let mut s = owned("Message sent successfully to ");
    s.append(room_name);
    s.append("\nEvent ID: ");
    s.append(event_id);
    s.append("\nMessage type: ");
    match message_type {
        Some(t) => s.append(t.as_str()),
        None => s.append("text"),
    }
    match reply_to {
        Some(id) => {
            s.append(" (reply to ");
            s.append(id.as_str());
            s.append(")");
        },
        None => {},
    }
    ToolOutput::single(s)
}

/// The answer of `send-message` when sending fails.
pub fn send_message_failure(detail: &str) -> (r: ToolOutput)
    ensures
        r@ == failure_view("send message"@, detail@),
{
    ToolOutput::failure("send message", detail)
}

/// The answer of `send-direct-message` once the message is sent.
pub open spec fn dm_sent_text(
    target: Seq<char>,
    room_name: Seq<char>,
    room_id: Seq<char>,
    event_id: Seq<char>,
    created: bool,
) -> Seq<char> {
    "Direct message sent successfully to "@ + target + "\nRoom: "@ + room_name + " ("@ + room_id + ")\nEvent ID: "@
        + event_id + "\n"@ + if created {
        "New DM room created"@
    } else {
        "Used existing DM room"@
    }
}

/// The answer of `send-direct-message` once the message is sent; `created`
/// tells whether a new conversation room had to be made.
pub fn dm_sent_output(target: &str, room_name: &str, room_id: &str, event_id: &str, created: bool) -> (r:
    ToolOutput)
    ensures
        r@ == single_view(dm_sent_text(target@, room_name@, room_id@, event_id@, created)),
{
    let mut s = owned("Direct message sent successfully to ");
    s.append(target);
    s.append("\nRoom: ");
    s.append(room_name);
    s.append(" (");
    s.append(room_id);
    s.append(")\nEvent ID: ");
    s.append(event_id);
    s.append("\n");
    if created {
        s.append("New DM room created");
    } else {
        s.append("Used existing DM room");
    }
    ToolOutput::single(s)
}

/// Where a direct message goes: a joined room found to be the conversation
/// with the target (by its place in the list of joined rooms), or a new room.
#[derive(Debug, Clone, Copy, PartialEq, Eq)]
pub enum DmRoomChoice {
    Reuse(usize),
    CreateNew,
}

/// Whether a joined room, given as (joined members, whether the target is a
/// member), is the conversation with the target: two members, one of them
/// the target.
pub open spec fn is_dm_with_target(room: (u64, bool)) -> bool {
    room.0 == 2 && room.1
}

/// Whether `i` is the first such room in the list.
pub open spec fn first_dm_at(rooms: Seq<(u64, bool)>, i: int) -> bool {
    &&& 0 <= i < rooms.len()
    &&& is_dm_with_target(rooms[i])
    &&& forall|j: int| 0 <= j < i ==> !is_dm_with_target(#[trigger] rooms[j])
}

/// The first joined room that is the conversation with the target, else a new room.
pub open spec fn spec_choose_dm_room(rooms: Seq<(u64, bool)>) -> DmRoomChoice {
    if exists|i: int| first_dm_at(rooms, i) {
        DmRoomChoice::Reuse((choose|i: int| first_dm_at(rooms, i)) as usize)
    } else {
        DmRoomChoice::CreateNew
    }
}

proof fn lemma_first_dm_unique(rooms: Seq<(u64, bool)>, i: int, k: int)
    requires
        first_dm_at(rooms, i),
        first_dm_at(rooms, k),
    ensures
        i == k,
{
    if i < k {
        assert(!is_dm_with_target(rooms[i]));
    } else if k < i {
        assert(!is_dm_with_target(rooms[k]));
    }
}

/// Picks the room a direct message goes to: the first joined room with two
/// members of whom the target is one, else a room to be made.
pub fn choose_dm_room(rooms: &Vec<(u64, bool)>) -> (r: DmRoomChoice)
    ensures
        r == spec_choose_dm_room(rooms@),
{
    let mut i: usize = 0;
    while i < rooms.len()
        invariant
            i <= rooms@.len(),
            forall|j: int| 0 <= j < i ==> !is_dm_with_target(#[trigger] rooms@[j]),
        decreases rooms@.len() - i,
    {
        let (members, has_target) = rooms[i];
        if members == 2 && has_target {
            proof {
                assert(first_dm_at(rooms@, i as int));
                let k = choose|k: int| first_dm_at(rooms@, k);
                lemma_first_dm_unique(rooms@, i as int, k);
            }
            return DmRoomChoice::Reuse(i);
        }
        i = i + 1;
    }
    proof {
        assert forall|k: int| !first_dm_at(rooms@, k) by {
            if 0 <= k < rooms@.len() {
                assert(!is_dm_with_target(rooms@[k]));
            }
        }
    }
    DmRoomChoice::CreateNew
}

/// The room to make for a direct message: marked direct, inviting the
/// target, with the trusted private chat preset.
pub struct DmRoomRequest {
    pub is_direct: bool,
    pub invite: Vec<String>,
    pub trusted_private_chat: bool,
}

/// The room to make for a direct message to `target`.
pub fn dm_room_request(target: &str) -> (r: DmRoomRequest)
    ensures
        r.is_direct,
        r.invite@.len() == 1,
        r.invite@[0]@ == target@,
        r.trusted_private_chat,
{
    let mut invite: Vec<String> = Vec::new();
    invite.push(owned(target));
    DmRoomRequest { is_direct: true, invite, trusted_private_chat: true }
}

/// The answer of `send-direct-message` when making the room or sending fails.
pub fn send_direct_message_failure(detail: &str) -> (r: ToolOutput)
    ensures
        r@ == failure_view("send direct message"@, detail@),
{
    ToolOutput::failure("send direct message", detail)
}

/// The answer of `send-direct-message` when a room was made but cannot be found.
pub fn dm_room_missing() -> (r: ToolOutput)
    ensures
        r@ == error_view("Error: Created DM room but could not retrieve it"@),
{
    ToolOutput::error(owned("Error: Created DM room but could not retrieve it"))
}

} // verus!
