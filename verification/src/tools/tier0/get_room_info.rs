//! The tool that describes one room.

use vstd::prelude::*;

use crate::error::AppError;
use crate::json::{
    count_value, items_view, member, members_view, object, str_member, text_value, JsonValue,
    JsonView, NumberView,
};
use crate::text::owned;
use crate::tools::{
    note_member, scaffold_note, schema, schema_view, string_prop, string_property, Tool,
};

verus! {

/// Describes one room.
pub struct GetRoomInfo;

/// The answer for the room `room`.
pub open spec fn room_info_answer(room: Seq<char>) -> JsonView {
    JsonView::Object(
        seq![
            ("roomId"@, JsonView::Str(room)),
            ("name"@, JsonView::Null),
            ("topic"@, JsonView::Null),
            ("memberCount"@, JsonView::Number(NumberView::PosInt(0))),
            ("isEncrypted"@, JsonView::Bool(false)),
            ("message"@, JsonView::Str(scaffold_note())),
        ],
    )
}

impl Tool for GetRoomInfo {
    fn name(&self) -> (r: &'static str)
        ensures
            r@ == "get-room-info"@,
    {
        "get-room-info"
    }

    fn description(&self) -> (r: &'static str)
        ensures
            r@
                == "Get detailed information about a Matrix room including name, topic, settings, member count, and encryption status"@,
    {
        "Get detailed information about a Matrix room including name, topic, settings, member count, and encryption status"
    }

    fn input_schema(&self) -> (r: JsonValue)
        ensures
            r@ == schema_view(
                seq![("roomId"@, string_property("Matrix room ID (e.g., !roomid:domain.com)"@))],
                seq![JsonView::Str("roomId"@)],
            ),
    {
        let ps = vec![member("roomId", string_prop("Matrix room ID (e.g., !roomid:domain.com)"))];
        let qs = vec![text_value("roomId")];
        let ghost (pg, qg) = (ps@, qs@);
        assert(members_view(pg) =~= seq![
            ("roomId"@, string_property("Matrix room ID (e.g., !roomid:domain.com)"@)),
        ]);
        assert(items_view(qg) =~= seq![JsonView::Str("roomId"@)]);
        schema(ps, qs)
    }

    fn execute(&self, args: JsonValue) -> (r: Result<JsonValue, AppError>)
        ensures
            match str_member(args, "roomId"@) {
                Some(room) => r matches Ok(v) && v@ == room_info_answer(room),
                None => r matches Err(AppError::InvalidParameter(m)) && m@ == "roomId is required"@,
            },
    {
        match args.str_member("roomId") {
            Some(room) => {
                let ms = vec![
                    member("roomId", text_value(room.as_str())),
                    member("name", JsonValue::Null),
                    member("topic", JsonValue::Null),
                    member("memberCount", count_value(0)),
                    member("isEncrypted", JsonValue::Bool(false)),
                    note_member(),
                ];
                let ghost g = ms@;
                assert(members_view(g) =~= room_info_answer(room@)->Object_0);
                Ok(object(ms))
            },
            None => Err(AppError::InvalidParameter(owned("roomId is required"))),
        }
    }
}

} // verus!
