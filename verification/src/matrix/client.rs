//! What the Matrix client's start-up decides: whether the user id can open a
//! session, how a failed step is reported, and how the sync loop paces itself.

use vstd::prelude::*;

use crate::error::AppError;
use crate::matrix::ids::{check_user_id, user_id_rejection};
use crate::text::concat2;

verus! {

/// The device the server's session is opened on.
pub const DEVICE_ID: &'static str = "MCP_SERVER";

/// How long one sync request may wait for news, in seconds.
pub const SYNC_TIMEOUT_SECS: u64 = 30;

/// The pause between two syncs, in seconds.
pub const SYNC_PAUSE_SECS: u64 = 1;

/// The extra wait after a failed sync, in seconds.
pub const SYNC_RETRY_SECS: u64 = 5;

/// The text of the error for a user id that cannot open a session.
pub open spec fn session_user_message(user_id: Seq<char>, why: Seq<char>) -> Seq<char> {
    "Invalid user ID '"@ + user_id + "': "@ + why
}

/// Checks that `user_id` can open a session: `ruma` must accept it as a user id.
pub fn check_session_user(user_id: &str) -> (r: Result<(), AppError>)
    ensures
        match user_id_rejection(user_id@) {
            None => r is Ok,
            Some(why) => r matches Err(AppError::InvalidParameter(m)) && m@ == session_user_message(
                user_id@,
                why,
            ),
        },
{
    match check_user_id(user_id) {
        None => Ok(()),
        Some(why) => {
            let head = concat2("Invalid user ID '", user_id);
            let head = concat2(head.as_str(), "': ");
            let m = concat2(head.as_str(), why.as_str());
            proof {
                assert(m@ =~= session_user_message(user_id@, why@));
            }
            Err(AppError::InvalidParameter(m))
        },
    }
}

/// The steps of bringing a client up.
pub enum ClientStep {
    Build,
    RestoreSession,
    InitialSync,
}

/// How a failed step is introduced in its error.
pub open spec fn step_prefix(step: ClientStep) -> Seq<char> {
    match step {
        ClientStep::Build => "Failed to build client: "@,
        ClientStep::RestoreSession => "Failed to restore session: "@,
        ClientStep::InitialSync => "Initial sync failed: "@,
    }
}

/// The error for a failed step, with the detail the client library gave.
pub fn client_failure(step: ClientStep, detail: &str) -> (r: AppError)
    ensures
        r matches AppError::MatrixClient(m) && m@ == step_prefix(step) + detail@,
{
    let m = match step {
        ClientStep::Build => concat2("Failed to build client: ", detail),
        ClientStep::RestoreSession => concat2("Failed to restore session: ", detail),
        ClientStep::InitialSync => concat2("Initial sync failed: ", detail),
    };
    AppError::MatrixClient(m)
}

/// The wait before the next sync, in seconds: the pause, and after a failure
/// the retry wait as well.
pub fn wait_before_next_sync(succeeded: bool) -> (r: u64)
    ensures
        r == if succeeded {
            SYNC_PAUSE_SECS as int
        } else {
            SYNC_RETRY_SECS + SYNC_PAUSE_SECS
        },
{
    if succeeded {
        SYNC_PAUSE_SECS
    } else {
        SYNC_RETRY_SECS + SYNC_PAUSE_SECS
    }
}

} // verus!
