//! The `identify-active-users` tool.

use vstd::prelude::*;

use crate::error::AppError;
use crate::json::JsonValue;
use crate::tools::{note_only, note_only_view, no_arguments, no_arguments_schema, Tool};

verus! {

/// Ranks a room's most active senders.
pub struct IdentifyActiveUsers;

impl Tool for IdentifyActiveUsers {
    fn name(&self) -> (r: &'static str)
        ensures
            r@ == "identify-active-users"@,
    {
        "identify-active-users"
    }

    fn description(&self) -> (r: &'static str)
        ensures
            r@ == "Identify most active users in a room"@,
    {
        "Identify most active users in a room"
    }

    fn input_schema(&self) -> (r: JsonValue)
        ensures
            r@ == no_arguments_schema(),
    {
        no_arguments()
    }

    fn execute(&self, args: JsonValue) -> (r: Result<JsonValue, AppError>)
        ensures
            r matches Ok(v) && v@ == note_only_view(),
    {
        Ok(note_only())
    }
}

} // verus!
