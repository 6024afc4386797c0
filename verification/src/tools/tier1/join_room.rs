//! The `join-room` tool.

use vstd::prelude::*;

use crate::error::AppError;
use crate::json::JsonValue;
use crate::tools::{done, done_view, no_arguments, no_arguments_schema, Tool};

verus! {

/// Joins a room.
pub struct JoinRoom;

impl Tool for JoinRoom {
    fn name(&self) -> (r: &'static str)
        ensures
            r@ == "join-room"@,
    {
        "join-room"
    }

    fn description(&self) -> (r: &'static str)
        ensures
            r@ == "Join a Matrix room by ID or alias"@,
    {
        "Join a Matrix room by ID or alias"
    }

    fn input_schema(&self) -> (r: JsonValue)
        ensures
            r@ == no_arguments_schema(),
    {
        no_arguments()
    }

    fn execute(&self, args: JsonValue) -> (r: Result<JsonValue, AppError>)
        ensures
            r matches Ok(v) && v@ == done_view(),
    {
        Ok(done())
    }
}

} // verus!
