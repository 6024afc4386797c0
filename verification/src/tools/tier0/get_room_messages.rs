//! The `get-room-messages` tool.

use vstd::prelude::*;

use crate::error::AppError;
use crate::json::{
    array, count_value, items_view, member, members_view, object, str_member, text_value,
    u64_member, JsonValue, JsonView, NumberView,
};
use crate::text::owned;
use crate::tools::{
    limit_prop, limit_property, note_member, scaffold_note, schema, schema_view, string_prop,
    string_property, Tool,
};

verus! {

/// Reads a room's recent messages.
pub struct GetRoomMessages;

/// The limit asked for, 20 when the argument is absent or not a non-negative integer.
pub open spec fn requested_limit(args: JsonValue) -> u64 {
    match u64_member(args, "limit"@) {
        Some(n) => n,
        None => 20,
    }
}

/// The answer for the room `room` and the limit `limit`.
pub open spec fn room_messages_answer(room: Seq<char>, limit: u64) -> JsonView {
    JsonView::Object(
        seq![
            ("roomId"@, JsonView::Str(room)),
            ("messages"@, JsonView::Array(Seq::empty())),
            ("count"@, JsonView::Number(NumberView::PosInt(0))),
            ("limit"@, JsonView::Number(NumberView::PosInt(limit))),
            ("message"@, JsonView::Str(scaffold_note())),
        ],
    )
}

/// The limit asked for in `args`, 20 when absent.
pub fn limit_argument(args: &JsonValue) -> (r: u64)
    ensures
        r == requested_limit(*args),
{
    match args.get("limit") {
        Some(v) => match v.as_u64() {
            Some(n) => n,
            None => 20,
        },
        None => 20,
    }
}

impl Tool for GetRoomMessages {
    fn name(&self) -> (r: &'static str)
        ensures
            r@ == "get-room-messages"@,
    {
        "get-room-messages"
    }

    fn description(&self) -> (r: &'static str)
        ensures
            r@ == "Retrieve recent messages from a Matrix room, including text and image content"@,
    {
        "Retrieve recent messages from a Matrix room, including text and image content"
    }

    fn input_schema(&self) -> (r: JsonValue)
        ensures
            r@ == schema_view(
                seq![
                    ("roomId"@, string_property("Matrix room ID (e.g., !roomid:domain.com)"@)),
                    (
                        "limit"@,
                        limit_property("Maximum number of messages to retrieve (default: 20)"@),
                    ),
                ],
                seq![JsonView::Str("roomId"@)],
            ),
    {
        let ps = vec![
            member("roomId", string_prop("Matrix room ID (e.g., !roomid:domain.com)")),
            member("limit", limit_prop("Maximum number of messages to retrieve (default: 20)")),
        ];
        let qs = vec![text_value("roomId")];
        let ghost (pg, qg) = (ps@, qs@);
        assert(members_view(pg) =~= seq![
            ("roomId"@, string_property("Matrix room ID (e.g., !roomid:domain.com)"@)),
            ("limit"@, limit_property("Maximum number of messages to retrieve (default: 20)"@)),
        ]);
        assert(items_view(qg) =~= seq![JsonView::Str("roomId"@)]);
        schema(ps, qs)
    }

    fn execute(&self, args: JsonValue) -> (r: Result<JsonValue, AppError>)
        ensures
            match str_member(args, "roomId"@) {
                Some(room) => r matches Ok(v) && v@ == room_messages_answer(
                    room,
                    requested_limit(args),
                ),
                None => r matches Err(AppError::InvalidParameter(m)) && m@ == "roomId is required"@,
            },
    {
        match args.str_member("roomId") {
            Some(room) => {
                let limit = limit_argument(&args);
                let messages = array(Vec::new());
                assert(items_view(Seq::<JsonValue>::empty()) =~= Seq::empty());
                let ms = vec![
                    member("roomId", text_value(room.as_str())),
                    member("messages", messages),
                    member("count", count_value(0)),
                    member("limit", count_value(limit)),
                    note_member(),
                ];
                let ghost g = ms@;
                assert(members_view(g) =~= room_messages_answer(room@, limit)->Object_0);
                Ok(object(ms))
            },
            None => Err(AppError::InvalidParameter(owned("roomId is required"))),
        }
    }
}

} // verus!
