//! The `leave-room` tool.

use vstd::prelude::*;

use crate::error::AppError;
use crate::json::JsonValue;
use crate::tools::{done, done_view, no_arguments, no_arguments_schema, Tool};

verus! {

/// Leaves a room.
pub struct LeaveRoom;

impl Tool for LeaveRoom {
    fn name(&self) -> (r: &'static str)
        ensures
            r@ == "leave-room"@,
    {
        "leave-room"
    }

    fn description(&self) -> (r: &'static str)
        ensures
            r@ == "Leave a Matrix room"@,
    {
        "Leave a Matrix room"
    }

    fn input_schema(&self) -> (r: JsonValue)
        ensures
            r@ == no_arguments_schema(),
    {
        no_arguments()
    }

    fn execute(&self, args: JsonValue) -> (r: Result<JsonValue, AppError>)
        ensures
            r matches Ok(v) && v@ == done_view(),
    {
        Ok(done())
    }
}

} // verus!
