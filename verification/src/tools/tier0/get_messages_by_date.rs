//! The `get-messages-by-date` tool.

use vstd::prelude::*;

use crate::error::AppError;
use crate::json::JsonValue;
use crate::tools::{note_only, note_only_view, no_arguments, no_arguments_schema, Tool};

verus! {

/// Reads a room's messages within a date range.
pub struct GetMessagesByDate;

impl Tool for GetMessagesByDate {
    fn name(&self) -> (r: &'static str)
        ensures
            r@ == "get-messages-by-date"@,
    {
        "get-messages-by-date"
    }

    fn description(&self) -> (r: &'static str)
        ensures
            r@ == "Get messages by date range"@,
    {
        "Get messages by date range"
    }

    fn input_schema(&self) -> (r: JsonValue)
        ensures
            r@ == no_arguments_schema(),
    {
        no_arguments()
    }

    fn execute(&self, args: JsonValue) -> (r: Result<JsonValue, AppError>)
        ensures
            r matches Ok(v) && v@ == note_only_view(),
    {
        Ok(note_only())
    }
}

} // verus!
