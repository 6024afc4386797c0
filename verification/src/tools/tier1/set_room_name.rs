//! The `set-room-name` tool.

use vstd::prelude::*;

use crate::error::AppError;
use crate::json::JsonValue;
use crate::tools::{done, done_view, no_arguments, no_arguments_schema, Tool};

verus! {

/// Renames a room.
pub struct SetRoomName;

impl Tool for SetRoomName {
    fn name(&self) -> (r: &'static str)
        ensures
            r@ == "set-room-name"@,
    {
        "set-room-name"
    }

    fn description(&self) -> (r: &'static str)
        ensures
            r@ == "Update the display name of a Matrix room"@,
    {
        "Update the display name of a Matrix room"
    }

    fn input_schema(&self) -> (r: JsonValue)
        ensures
            r@ == no_arguments_schema(),
    {
        no_arguments()
    }

    fn execute(&self, args: JsonValue) -> (r: Result<JsonValue, AppError>)
        ensures
            r matches Ok(v) && v@ == done_view(),
    {
        Ok(done())
    }
}

} // verus!
