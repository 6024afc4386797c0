//! The `get-my-profile` tool.

use vstd::prelude::*;

use crate::error::AppError;
use crate::json::JsonValue;
use crate::tools::{note_only, note_only_view, no_arguments, no_arguments_schema, Tool};

verus! {

/// Describes the signed-in user.
pub struct GetMyProfile;

impl Tool for GetMyProfile {
    fn name(&self) -> (r: &'static str)
        ensures
            r@ == "get-my-profile"@,
    {
        "get-my-profile"
    }

    fn description(&self) -> (r: &'static str)
        ensures
            r@ == "Get current user profile"@,
    {
        "Get current user profile"
    }

    fn input_schema(&self) -> (r: JsonValue)
        ensures
            r@ == no_arguments_schema(),
    {
        no_arguments()
    }

    fn execute(&self, args: JsonValue) -> (r: Result<JsonValue, AppError>)
        ensures
            r matches Ok(v) && v@ == note_only_view(),
    {
        Ok(note_only())
    }
}

} // verus!
