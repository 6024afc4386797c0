//! The `get-room-members` tool.

use vstd::prelude::*;

use crate::error::AppError;
use crate::json::JsonValue;
use crate::tools::{note_only, note_only_view, no_arguments, no_arguments_schema, Tool};

verus! {

/// Lists a room's members.
pub struct GetRoomMembers;

impl Tool for GetRoomMembers {
    fn name(&self) -> (r: &'static str)
        ensures
            r@ == "get-room-members"@,
    {
        "get-room-members"
    }

    fn description(&self) -> (r: &'static str)
        ensures
            r@ == "Get room members"@,
    {
        "Get room members"
    }

    fn input_schema(&self) -> (r: JsonValue)
        ensures
            r@ == no_arguments_schema(),
    {
        no_arguments()
    }

    fn execute(&self, args: JsonValue) -> (r: Result<JsonValue, AppError>)
        ensures
            r matches Ok(v) && v@ == note_only_view(),
    {
        Ok(note_only())
    }
}

} // verus!
