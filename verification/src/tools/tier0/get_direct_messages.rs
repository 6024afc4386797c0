//! The `get-direct-messages` tool.

use vstd::prelude::*;

use crate::error::AppError;
use crate::json::JsonValue;
use crate::tools::{note_only, note_only_view, no_arguments, no_arguments_schema, Tool};

verus! {

/// Lists the direct conversations.
pub struct GetDirectMessages;

impl Tool for GetDirectMessages {
    fn name(&self) -> (r: &'static str)
        ensures
            r@ == "get-direct-messages"@,
    {
        "get-direct-messages"
    }

    fn description(&self) -> (r: &'static str)
        ensures
            r@ == "Get direct message conversations"@,
    {
        "Get direct message conversations"
    }

    fn input_schema(&self) -> (r: JsonValue)
        ensures
            r@ == no_arguments_schema(),
    {
        no_arguments()
    }

    fn execute(&self, args: JsonValue) -> (r: Result<JsonValue, AppError>)
        ensures
            r matches Ok(v) && v@ == note_only_view(),
    {
        Ok(note_only())
    }
}

} // verus!
