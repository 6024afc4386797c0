//! The `send-message` tool.

use vstd::prelude::*;

use crate::error::AppError;
use crate::json::JsonValue;
use crate::tools::{done, done_view, no_arguments, no_arguments_schema, Tool};

verus! {

/// Sends a message to a room.
pub struct SendMessage;

impl Tool for SendMessage {
    fn name(&self) -> (r: &'static str)
        ensures
            r@ == "send-message"@,
    {
        "send-message"
    }

    fn description(&self) -> (r: &'static str)
        ensures
            r@ == "Send a text message to a Matrix room"@,
    {
        "Send a text message to a Matrix room"
    }

    fn input_schema(&self) -> (r: JsonValue)
        ensures
            r@ == no_arguments_schema(),
    {
        no_arguments()
    }

    fn execute(&self, args: JsonValue) -> (r: Result<JsonValue, AppError>)
        ensures
            r matches Ok(v) && v@ == done_view(),
    {
        Ok(done())
    }
}

} // verus!
