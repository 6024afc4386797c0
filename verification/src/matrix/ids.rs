//! Checks of Matrix identifiers, as the `ruma` library parses them.

use vstd::prelude::*;

use crate::config::opt_view;

verus! {

/// Whether `ruma` accepts `s` as a room id: it starts with `!`. (The room-id
/// check of `ruma-identifiers-validation` only tests the leading sigil and,
/// unless `compat-arbitrary-length-ids` is on, a length of at most 255 bytes;
/// `matrix-sdk` turns that feature on in this crate's build.)
pub open spec fn room_id_accepted(s: Seq<char>) -> bool {
    s.len() > 0 && s[0] == '!'
}

/// Why `ruma` rejects `s` as a user id (its error's text), or `None` when it accepts it.
pub uninterp spec fn user_id_rejection(s: Seq<char>) -> Option<Seq<char>>;

/// Why `ruma` rejects `s` as a room id or room alias (its error's text), or `None` when it accepts it.
pub uninterp spec fn room_or_alias_rejection(s: Seq<char>) -> Option<Seq<char>>;

/// Whether `ruma` accepts `s` as a server name.
pub uninterp spec fn server_name_accepted(s: Seq<char>) -> bool;

/// Whether `ruma::OwnedRoomId::try_from` accepts `s`: exactly when `s`
/// starts with `!`, in this build.
#[verifier::external_body]
pub(crate) fn check_room_id(s: &str) -> (r: bool)
    ensures
        r == room_id_accepted(s@),
{
    ruma::OwnedRoomId::try_from(s).is_ok()
}

/// `ruma::OwnedUserId::try_from(s)`: `None` when it succeeds, else the text
/// of its error. The contract names the answer and says no more.
#[verifier::external_body]
pub(crate) fn check_user_id(s: &str) -> (r: Option<String>)
    ensures
        opt_view(r) == user_id_rejection(s@),
{
    match ruma::OwnedUserId::try_from(s) {
        Ok(_) => None,
        Err(e) => Some(e.to_string()),
    }
}

/// `ruma::OwnedRoomOrAliasId::try_from(s)`: `None` when it succeeds, else the
/// text of its error. The contract names the answer and says no more.
#[verifier::external_body]
pub(crate) fn check_room_or_alias_id(s: &str) -> (r: Option<String>)
    ensures
        opt_view(r) == room_or_alias_rejection(s@),
{
    match ruma::OwnedRoomOrAliasId::try_from(s) {
        Ok(_) => None,
        Err(e) => Some(e.to_string()),
    }
}

/// Whether `ruma::OwnedServerName::try_from` accepts `s`. The contract names
/// the answer and says no more.
#[verifier::external_body]
pub(crate) fn check_server_name(s: &str) -> (r: bool)
    ensures
        r == server_name_accepted(s@),
{
    ruma::OwnedServerName::try_from(s).is_ok()
}

} // verus!
