//! The credentials a request acts with.

use vstd::prelude::*;

use crate::text::owned;

verus! {

/// Who a request acts as, on which homeserver, and with which access token.
pub struct MatrixAuthContext {
    pub user_id: String,
    pub homeserver_url: String,
    pub access_token: String,
}

impl MatrixAuthContext {
    /// The credentials given explicitly, as the server-wide configuration holds them.
    pub fn from_config(user_id: &str, homeserver_url: &str, access_token: &str) -> (r: Self)
        ensures
            r.user_id@ == user_id@,
            r.homeserver_url@ == homeserver_url@,
            r.access_token@ == access_token@,
    {
        MatrixAuthContext {
            user_id: owned(user_id),
            homeserver_url: owned(homeserver_url),
            access_token: owned(access_token),
        }
    }
}

} // verus!
