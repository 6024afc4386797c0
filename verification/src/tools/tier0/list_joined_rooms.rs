//! The `list-joined-rooms` tool.

use vstd::prelude::*;

use crate::error::AppError;
use crate::json::{array, count_value, member, members_view, object, JsonValue, JsonView, NumberView};
use crate::tools::{no_arguments, no_arguments_schema, note_member, scaffold_note, Tool};

verus! {

/// Lists the rooms the user has joined.
pub struct ListJoinedRooms;

/// The answer: no rooms yet, and the note.
pub open spec fn joined_rooms_answer() -> JsonView {
    JsonView::Object(
        seq![
            ("rooms"@, JsonView::Array(Seq::empty())),
            ("count"@, JsonView::Number(NumberView::PosInt(0))),
            ("message"@, JsonView::Str(scaffold_note())),
        ],
    )
}

impl Tool for ListJoinedRooms {
    fn name(&self) -> (r: &'static str)
        ensures
            r@ == "list-joined-rooms"@,
    {
        "list-joined-rooms"
    }

    fn description(&self) -> (r: &'static str)
        ensures
            r@
                == "Get a list of all Matrix rooms the user has joined, with room names, IDs, and basic information"@,
    {
        "Get a list of all Matrix rooms the user has joined, with room names, IDs, and basic information"
    }

    fn input_schema(&self) -> (r: JsonValue)
        ensures
            r@ == no_arguments_schema(),
    {
        no_arguments()
    }

    fn execute(&self, args: JsonValue) -> (r: Result<JsonValue, AppError>)
        ensures
            r matches Ok(v) && v@ == joined_rooms_answer(),
    {
        let rooms = array(Vec::new());
        assert(crate::json::items_view(Seq::<JsonValue>::empty()) =~= Seq::empty());
        let ms = vec![member("rooms", rooms), member("count", count_value(0)), note_member()];
        let ghost g = ms@;
        assert(members_view(g) =~= joined_rooms_answer()->Object_0);
        Ok(object(ms))
    }
}

} // verus!
