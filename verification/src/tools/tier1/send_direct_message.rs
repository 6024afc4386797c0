//! The `send-direct-message` tool.

use vstd::prelude::*;

use crate::error::AppError;
use crate::json::JsonValue;
use crate::tools::{done, done_view, no_arguments, no_arguments_schema, Tool};

verus! {

/// Sends a direct message.
pub struct SendDirectMessage;

impl Tool for SendDirectMessage {
    fn name(&self) -> (r: &'static str)
        ensures
            r@ == "send-direct-message"@,
    {
        "send-direct-message"
    }

    fn description(&self) -> (r: &'static str)
        ensures
            r@ == "Send a direct message to a Matrix user"@,
    {
        "Send a direct message to a Matrix user"
    }

    fn input_schema(&self) -> (r: JsonValue)
        ensures
            r@ == no_arguments_schema(),
    {
        no_arguments()
    }

    fn execute(&self, args: JsonValue) -> (r: Result<JsonValue, AppError>)
        ensures
            r matches Ok(v) && v@ == done_view(),
    {
        Ok(done())
    }
}

} // verus!
