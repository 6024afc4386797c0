//! The answers of the room tools: listing and describing rooms, their
//! members, and joining, leaving, creating and changing rooms.

use vstd::prelude::*;

use crate::config::opt_view;
use crate::mcp::output::{error_view, lemma_texts_push, failure_view, single_view, success_view, texts_view, ToolOutput, ToolOutputView};
use crate::text::{
    append_decimal, concat2, contains_str, decimal, has_substring, join_strings, join_with, owned,
    spec_split_second, split_second, str_eq,
};
use crate::matrix::ids::{check_room_or_alias_id, check_user_id, room_or_alias_rejection, user_id_rejection};

verus! {

/// A joined room as the room list shows it.
pub struct RoomSummary {
    pub name: String,
    pub room_id: String,
    pub joined_members: u64,
}

/// A room member: their user id and display name, if they set one.
pub struct MemberSummary {
    pub user_id: String,
    pub display_name: Option<String>,
}

/// The line of the room list for one room.
pub open spec fn room_line(r: RoomSummary) -> Seq<char> {
    "Room: "@ + r.name@ + " ("@ + r.room_id@ + ") - "@ + decimal(r.joined_members as nat) + " members"@
}

/// The lines of the room list, one per room.
pub open spec fn room_lines(rooms: Seq<RoomSummary>) -> Seq<Seq<char>> {
    Seq::new(rooms.len(), |i: int| room_line(rooms[i]))
}

/// The answer of `list-joined-rooms`.
pub open spec fn list_joined_rooms_view(rooms: Seq<RoomSummary>) -> ToolOutputView {
    if rooms.len() == 0 {
        single_view("No joined rooms found"@)
    } else {
        success_view(room_lines(rooms))
    }
}

/// The answer of `list-joined-rooms`: one line per joined room.
pub fn list_joined_rooms_output(rooms: &Vec<RoomSummary>) -> (r: ToolOutput)
    ensures
        r@ == list_joined_rooms_view(rooms@),
{
    if rooms.len() == 0 {
        return ToolOutput::single(owned("No joined rooms found"));
    }
    let mut texts: Vec<String> = Vec::new();
    let mut i: usize = 0;
    while i < rooms.len()
        invariant
            i <= rooms@.len(),
            texts_view(texts@) == room_lines(rooms@.subrange(0, i as int)),
        decreases rooms@.len() - i,
    {
        let room = &rooms[i];
        let mut s = owned("Room: ");
        s.append(room.name.as_str());
        s.append(" (");
        s.append(room.room_id.as_str());
        s.append(") - ");
        append_decimal(&mut s, room.joined_members);
        s.append(" members");
        let ghost before = texts@;
        texts.push(s);
        proof {
            lemma_texts_push(before, s);
            assert(room_lines(rooms@.subrange(0, i + 1)) =~= room_lines(rooms@.subrange(0, i as int)).push(
                room_line(rooms@[i as int]),
            ));
        }
        i = i + 1;
    }
    assert(rooms@.subrange(0, rooms@.len() as int) =~= rooms@);
    ToolOutput::success(texts)
}

/// A value, or the text shown in its place when it is missing.
pub open spec fn or_default(o: Option<Seq<char>>, default: Seq<char>) -> Seq<char> {
    match o {
        Some(v) => v,
        None => default,
    }
}

fn string_or(o: Option<String>, default: &str) -> (r: String)
    ensures
        r@ == or_default(opt_view(o), default@),
{
    match o {
        Some(v) => v,
        None => owned(default),
    }
}

/// The text of `get-room-info`.
pub open spec fn room_info_text(
    name: Seq<char>,
    room_id: Seq<char>,
    alias: Option<Seq<char>>,
    topic: Option<Seq<char>>,
    members: u64,
    encrypted: bool,
) -> Seq<char> {
    "Room Information:\nName: "@ + name + "\nRoom ID: "@ + room_id + "\nAlias: "@ + or_default(
        alias,
        "No alias"@,
    ) + "\nTopic: "@ + or_default(topic, "No topic set"@) + "\nMembers: "@ + decimal(members as nat)
        + "\nEncrypted: "@ + if encrypted {
        "Yes"@
    } else {
        "No"@
    }
}

/// The answer of `get-room-info`.
pub fn room_info_output(
    name: &str,
    room_id: &str,
    alias: Option<String>,
    topic: Option<String>,
    members: u64,
    encrypted: bool,
) -> (r: ToolOutput)
    ensures
        r@ == single_view(
            room_info_text(name@, room_id@, opt_view(alias), opt_view(topic), members, encrypted),
        ),
{
    let mut s = owned("Room Information:\nName: ");
    s.append(name);
    s.append("\nRoom ID: ");
    s.append(room_id);
    s.append("\nAlias: ");
    s.append(string_or(alias, "No alias").as_str());
    s.append("\nTopic: ");
    s.append(string_or(topic, "No topic set").as_str());
    s.append("\nMembers: ");
    append_decimal(&mut s, members);
    s.append("\nEncrypted: ");
    if encrypted {
        s.append("Yes");
    } else {
        s.append("No");
    }
    ToolOutput::single(s)
}

/// How a member is shown: `{display name or user id} ({user id})`.
pub open spec fn member_line(m: MemberSummary) -> Seq<char> {
    or_default(opt_view(m.display_name), m.user_id@) + " ("@ + m.user_id@ + ")"@
}

/// How a member is shown: `{display name or user id} ({user id})`.
pub fn member_text(m: &MemberSummary) -> (r: String)
    ensures
        r@ == member_line(*m),
{
    let mut s = match &m.display_name {
        Some(d) => d.clone(),
        None => m.user_id.clone(),
    };
    s.append(" (");
    s.append(m.user_id.as_str());
    s.append(")");
    s
}

/// The lines of a member list, one per member.
pub open spec fn member_lines_view(ms: Seq<MemberSummary>) -> Seq<Seq<char>> {
    Seq::new(ms.len(), |i: int| member_line(ms[i]))
}

/// The answer of `get-room-members`, given the members read or the text of the error.
pub open spec fn room_members_view(
    members: Result<Seq<MemberSummary>, Seq<char>>,
    room_name: Seq<char>,
) -> ToolOutputView {
    match members {
        Err(e) => failure_view("get room members"@, e),
        Ok(ms) => if ms.len() == 0 {
            single_view("No members found in room "@ + room_name)
        } else {
            success_view(member_lines_view(ms))
        },
    }
}

/// The answer of `get-room-members`: one line per joined member.
pub fn room_members_output(members: &Result<Vec<MemberSummary>, String>, room_name: &str) -> (r:
    ToolOutput)
    ensures
        r@ == room_members_view(
            match members {
                Ok(ms) => Ok::<Seq<MemberSummary>, Seq<char>>(ms@),
                Err(e) => Err::<Seq<MemberSummary>, Seq<char>>(e@),
            },
            room_name@,
        ),
{
    match members {
        Err(e) => ToolOutput::failure("get room members", e.as_str()),
        Ok(ms) => {
            if ms.len() == 0 {
                return ToolOutput::single(concat2("No members found in room ", room_name));
            }
            let texts = member_lines(ms);
            ToolOutput::success(texts)
        },
    }
}

/// One line per member, in order.
pub fn member_lines(ms: &Vec<MemberSummary>) -> (texts: Vec<String>)
    ensures
        texts_view(texts@) == member_lines_view(ms@),
{
    let mut texts: Vec<String> = Vec::new();
    let mut i: usize = 0;
    while i < ms.len()
        invariant
            i <= ms@.len(),
            texts_view(texts@) == member_lines_view(ms@.subrange(0, i as int)),
        decreases ms@.len() - i,
    {
        let s = member_text(&ms[i]);
        let ghost before = texts@;
        texts.push(s);
        proof {
            lemma_texts_push(before, s);
            assert(member_lines_view(ms@.subrange(0, i + 1)) =~= member_lines_view(
                ms@.subrange(0, i as int),
            ).push(member_line(ms@[i as int])));
        }
        i = i + 1;
    }
    assert(ms@.subrange(0, ms@.len() as int) =~= ms@);
    texts
}

/// The answer of `leave-room` once the room is left.
pub open spec fn leave_room_text(name: Seq<char>, room_id: Seq<char>, reason: Option<Seq<char>>) -> Seq<
    char,
> {
    match reason {
        Some(r) => "Successfully left room: "@ + name + "\nRoom ID: "@ + room_id + "\nReason: "@ + r,
        None => "Successfully left room: "@ + name + "\nRoom ID: "@ + room_id,
    }
}

/// The answer of `leave-room` once the room is left.
pub fn leave_room_output(name: &str, room_id: &str, reason: &Option<String>) -> (r: ToolOutput)
    ensures
        r@ == single_view(leave_room_text(name@, room_id@, opt_view(*reason))),
{
    let mut s = owned("Successfully left room: ");
    s.append(name);
    s.append("\nRoom ID: ");
    s.append(room_id);
    match reason {
        Some(why) => {
            s.append("\nReason: ");
            s.append(why.as_str());
        },
        None => {},
    }
    ToolOutput::single(s)
}

/// The answer of `leave-room` when leaving fails.
pub fn leave_room_failure(room_id: &str, detail: &str) -> (r: ToolOutput)
    ensures
        r@ == failure_view("leave room "@ + room_id@, detail@),
{
    let action = concat2("leave room ", room_id);
    ToolOutput::failure(action.as_str(), detail)
}

/// The error answer for a user id that `ruma` rejects, with the reason it gives.
pub open spec fn bad_user_id_view(user_id: Seq<char>, reason: Seq<char>) -> ToolOutputView {
    error_view("Error: Invalid user ID '"@ + user_id + "': "@ + reason)
}

/// Checks a user id before it is invited or written to: `None` when `ruma`
/// accepts it, else the error answer with the reason.
pub fn check_target_user(user_id: &str) -> (r: Option<ToolOutput>)
    ensures
        r is None <==> user_id_rejection(user_id@) is None,
        r matches Some(o) ==> o@ == bad_user_id_view(user_id@, user_id_rejection(user_id@)->0),
{
    match check_user_id(user_id) {
        None => None,
        Some(reason) => {
            let mut s = owned("Error: Invalid user ID '");
            s.append(user_id);
            s.append("': ");
            s.append(reason.as_str());
            Some(ToolOutput::error(s))
        },
    }
}

/// The answer of `invite-user` once the invitation is sent.
pub open spec fn invite_user_text(user_id: Seq<char>, room_name: Seq<char>, room_id: Seq<char>) -> Seq<
    char,
> {
    "Successfully invited "@ + user_id + " to room "@ + room_name + "\nRoom ID: "@ + room_id
        + "\nThe user will receive an invitation and can choose to join the room."@
}

/// The answer of `invite-user` once the invitation is sent.
pub fn invite_user_output(user_id: &str, room_name: &str, room_id: &str) -> (r: ToolOutput)
    ensures
        r@ == single_view(invite_user_text(user_id@, room_name@, room_id@)),
{
    let mut s = owned("Successfully invited ");
    s.append(user_id);
    s.append(" to room ");
    s.append(room_name);
    s.append("\nRoom ID: ");
    s.append(room_id);
    s.append("\nThe user will receive an invitation and can choose to join the room.");
    ToolOutput::single(s)
}

/// The answer of `invite-user` when the invitation fails.
pub fn invite_user_failure(user_id: &str, room_id: &str, detail: &str) -> (r: ToolOutput)
    ensures
        r@ == failure_view("invite "@ + user_id@ + " to room "@ + room_id@, detail@),
{
    let mut action = owned("invite ");
    action.append(user_id);
    action.append(" to room ");
    action.append(room_id);
    ToolOutput::failure(action.as_str(), detail)
}

/// The answer of `set-room-name` once the name is changed.
pub open spec fn set_room_name_text(room_id: Seq<char>, previous: Seq<char>, new_name: Seq<char>) -> Seq<
    char,
> {
    "Successfully updated room name\nRoom ID: "@ + room_id + "\nPrevious name: "@ + previous
        + "\nNew name: "@ + new_name
}

/// The answer of `set-room-name` once the name is changed.
pub fn set_room_name_output(room_id: &str, previous: &str, new_name: &str) -> (r: ToolOutput)
    ensures
        r@ == single_view(set_room_name_text(room_id@, previous@, new_name@)),
{
    let mut s = owned("Successfully updated room name\nRoom ID: ");
    s.append(room_id);
    s.append("\nPrevious name: ");
    s.append(previous);
    s.append("\nNew name: ");
    s.append(new_name);
    ToolOutput::single(s)
}

/// The answer of `set-room-name` when the change fails.
pub fn set_room_name_failure(detail: &str) -> (r: ToolOutput)
    ensures
        r@ == failure_view("set room name"@, detail@),
{
    ToolOutput::failure("set room name", detail)
}

/// The answer of `set-room-topic` once the topic is changed.
pub open spec fn set_room_topic_text(
    room_name: Seq<char>,
    room_id: Seq<char>,
    previous: Option<Seq<char>>,
    new_topic: Seq<char>,
) -> Seq<char> {
    "Successfully updated room topic for "@ + room_name + "\nRoom ID: "@ + room_id
        + "\nPrevious topic: "@ + or_default(previous, "No topic set"@) + "\nNew topic: "@ + new_topic
}

/// The answer of `set-room-topic` once the topic is changed.
pub fn set_room_topic_output(room_name: &str, room_id: &str, previous: Option<String>, new_topic: &str) -> (r:
    ToolOutput)
    ensures
        r@ == single_view(set_room_topic_text(room_name@, room_id@, opt_view(previous), new_topic@)),
{
    let mut s = owned("Successfully updated room topic for ");
    s.append(room_name);
    s.append("\nRoom ID: ");
    s.append(room_id);
    s.append("\nPrevious topic: ");
    s.append(string_or(previous, "No topic set").as_str());
    s.append("\nNew topic: ");
    s.append(new_topic);
    ToolOutput::single(s)
}

/// The answer of `set-room-topic` when the change fails.
pub fn set_room_topic_failure(detail: &str) -> (r: ToolOutput)
    ensures
        r@ == failure_view("set room topic"@, detail@),
{
    ToolOutput::failure("set room topic", detail)
}

/// Checks a room id or alias before joining: `None` when `ruma` accepts it,
/// else the error answer with the reason.
pub fn check_join_target(target: &str) -> (r: Option<ToolOutput>)
    ensures
        r is None <==> room_or_alias_rejection(target@) is None,
        r matches Some(o) ==> o@ == error_view(
            "Error: Invalid room ID or alias '"@ + target@ + "': "@ + room_or_alias_rejection(target@)->0,
        ),
{
    match check_room_or_alias_id(target) {
        None => None,
        Some(reason) => {
            let mut s = owned("Error: Invalid room ID or alias '");
            s.append(target);
            s.append("': ");
            s.append(reason.as_str());
            Some(ToolOutput::error(s))
        },
    }
}

/// The answer of `join-room` when joining fails, by the error the server gave.
pub open spec fn join_room_failure_view(target: Seq<char>, detail: Seq<char>) -> ToolOutputView {
    if has_substring(detail, "M_NOT_FOUND"@) {
        error_view("Error: Room "@ + target + " not found"@)
    } else if has_substring(detail, "M_FORBIDDEN"@) {
        error_view("Error: Access denied to room "@ + target)
    } else {
        failure_view("join room "@ + target, detail)
    }
}

/// The answer of `join-room` when joining fails, by the error the server gave.
pub fn join_room_failure(target: &str, detail: &str) -> (r: ToolOutput)
    ensures
        r@ == join_room_failure_view(target@, detail@),
{
    if contains_str(detail, "M_NOT_FOUND") {
        let mut s = owned("Error: Room ");
        s.append(target);
        s.append(" not found");
        ToolOutput::error(s)
    } else if contains_str(detail, "M_FORBIDDEN") {
        ToolOutput::error(concat2("Error: Access denied to room ", target))
    } else {
        let action = concat2("join room ", target);
        ToolOutput::failure(action.as_str(), detail)
    }
}

/// The answer of `join-room` once the room is joined; it mentions the alias
/// when the room was named by something other than its id.
pub open spec fn join_room_text(target: Seq<char>, room_id: Seq<char>) -> Seq<char> {
    if target != room_id {
        "Successfully joined room\nRoom ID: "@ + room_id + "\nJoined via alias: "@ + target
    } else {
        "Successfully joined room\nRoom ID: "@ + room_id
    }
}

/// The answer of `join-room` once the room is joined.
pub fn join_room_output(target: &str, room_id: &str) -> (r: ToolOutput)
    ensures
        r@ == single_view(join_room_text(target@, room_id@)),
{
    let mut s = owned("Successfully joined room\nRoom ID: ");
    s.append(room_id);
    if !str_eq(target, room_id) {
        s.append("\nJoined via alias: ");
        s.append(target);
    }
    ToolOutput::single(s)
}

/// The invitees of a new room that `ruma` accepts as user ids, in order; the others are skipped.
pub open spec fn valid_invitees(invites: Seq<String>) -> Seq<Seq<char>>
    decreases invites.len(),
{
    if invites.len() == 0 {
        Seq::empty()
    } else {
        let prev = valid_invitees(invites.drop_last());
        if user_id_rejection(invites.last()@) is None {
            prev.push(invites.last()@)
        } else {
            prev
        }
    }
}

/// Keeps the invitees that `ruma` accepts as user ids, in order.
pub fn create_room_invitees(invites: &Vec<String>) -> (r: Vec<String>)
    ensures
        texts_view(r@) == valid_invitees(invites@),
{
    let mut out: Vec<String> = Vec::new();
    let mut i: usize = 0;
    while i < invites.len()
        invariant
            i <= invites@.len(),
            texts_view(out@) == valid_invitees(invites@.subrange(0, i as int)),
        decreases invites@.len() - i,
    {
        assert(invites@.subrange(0, i + 1).drop_last() =~= invites@.subrange(0, i as int));
        let ghost before = out@;
        if check_user_id(invites[i].as_str()).is_none() {
            let u = invites[i].clone();
            out.push(u);
            proof {
                lemma_texts_push(before, u);
            }
        }
        i = i + 1;
    }
    assert(invites@.subrange(0, invites@.len() as int) =~= invites@);
    out
}

/// The answer of `create-room` when creation fails, by the error the server gave.
pub open spec fn create_room_failure_view(
    detail: Seq<char>,
    room_alias: Option<Seq<char>>,
    room_name: Seq<char>,
) -> ToolOutputView {
    if has_substring(detail, "M_ROOM_IN_USE"@) {
        error_view(
            "Error: Room alias \""@ + or_default(room_alias, "unknown"@) + "\" is already in use"@,
        )
    } else if has_substring(detail, "M_FORBIDDEN"@) {
        error_view("Error: You don't have permission to create rooms"@)
    } else {
        failure_view("create room \""@ + room_name + "\""@, detail)
    }
}

/// The answer of `create-room` when creation fails.
pub fn create_room_failure(detail: &str, room_alias: &Option<String>, room_name: &str) -> (r: ToolOutput)
    ensures
        r@ == create_room_failure_view(detail@, opt_view(*room_alias), room_name@),
{
    if contains_str(detail, "M_ROOM_IN_USE") {
        let mut s = owned("Error: Room alias \"");
        match room_alias {
            Some(a) => s.append(a.as_str()),
            None => s.append("unknown"),
        }
        s.append("\" is already in use");
        ToolOutput::error(s)
    } else if contains_str(detail, "M_FORBIDDEN") {
        ToolOutput::error(owned("Error: You don't have permission to create rooms"))
    } else {
        let mut action = owned("create room \"");
        action.append(room_name);
        action.append("\"");
        ToolOutput::failure(action.as_str(), detail)
    }
}

/// The server part of the user id, as the alias of a new room is written with it:
/// the text between the first `:` and the next one, or `unknown` without a `:`.
pub open spec fn user_domain(user_id: Seq<char>) -> Seq<char> {
    or_default(spec_split_second(user_id, ':'), "unknown"@)
}

/// The invitees as `create-room` lists them: joined by `, `, or `None` when there are none.
pub open spec fn invitee_list(invites: Option<Seq<Seq<char>>>) -> Seq<char> {
    match invites {
        Some(v) => if v.len() > 0 {
            join_with(v, ", "@)
        } else {
            "None"@
        },
        None => "None"@,
    }
}

/// How `create-room` shows the alias of a new room: `#{alias}:{domain of the own user id}`.
pub open spec fn alias_text(own_user_id: Seq<char>, room_alias: Option<Seq<char>>) -> Seq<char> {
    match room_alias {
        Some(a) => "#"@ + a + ":"@ + user_domain(own_user_id),
        None => "No alias"@,
    }
}

/// The answer of `create-room` once the room exists.
pub open spec fn create_room_text(
    own_user_id: Seq<char>,
    room_name: Seq<char>,
    room_id: Seq<char>,
    room_alias: Option<Seq<char>>,
    is_private: bool,
    topic: Option<Seq<char>>,
    invites: Option<Seq<Seq<char>>>,
) -> Seq<char> {
    "Successfully created room: "@ + room_name + "\nRoom ID: "@ + room_id + "\nAlias: "@ + alias_text(
        own_user_id,
        room_alias,
    ) + "\nPrivacy: "@ + if is_private {
        "Private"@
    } else {
        "Public"@
    } + "\nTopic: "@ + or_default(topic, "No topic set"@) + "\nInvited users: "@ + invitee_list(invites)
}

/// The answer of `create-room` once the room exists. `invites` is the list
/// of invitees as given, before invalid user ids are skipped.
pub fn create_room_output(
    own_user_id: &str,
    room_name: &str,
    room_id: &str,
    room_alias: &Option<String>,
    is_private: bool,
    topic: &Option<String>,
    invites: &Option<Vec<String>>,
) -> (r: ToolOutput)
    ensures
        r@ == single_view(
            create_room_text(
                own_user_id@,
                room_name@,
                room_id@,
                opt_view(*room_alias),
                is_private,
                opt_view(*topic),
                match invites {
                    Some(v) => Some(texts_view(v@)),
                    None => None,
                },
            ),
        ),
{
    let mut s = owned("Successfully created room: ");
    s.append(room_name);
    s.append("\nRoom ID: ");
    s.append(room_id);
    s.append("\nAlias: ");
    let alias = match room_alias {
        Some(a) => {
            let mut t = owned("#");
            t.append(a.as_str());
            t.append(":");
            let domain = string_or(split_second(own_user_id, ':'), "unknown");
            t.append(domain.as_str());
            t
        },
        None => owned("No alias"),
    };
    s.append(alias.as_str());
    s.append("\nPrivacy: ");
    if is_private {
        s.append("Private");
    } else {
        s.append("Public");
    }
    s.append("\nTopic: ");
    match topic {
        Some(t) => s.append(t.as_str()),
        None => s.append("No topic set"),
    }
    s.append("\nInvited users: ");
    let invited = match invites {
        Some(v) => if v.len() > 0 {
            join_strings(v, ", ")
        } else {
            owned("None")
        },
        None => owned("None"),
    };
    s.append(invited.as_str());
    ToolOutput::single(s)
}

} // verus!
