//! The `get-user-profile` tool.

use vstd::prelude::*;

use crate::error::AppError;
use crate::json::{
    items_view, member, members_view, object, str_member, text_value, JsonValue, JsonView,
};
use crate::text::owned;
use crate::tools::{
    note_member, scaffold_note, schema, schema_view, string_prop, string_property, Tool,
};

verus! {

/// Describes another user.
pub struct GetUserProfile;

/// The answer for the user `user`.
pub open spec fn user_profile_answer(user: Seq<char>) -> JsonView {
    JsonView::Object(
        seq![
            ("userId"@, JsonView::Str(user)),
            ("displayName"@, JsonView::Null),
            ("avatarUrl"@, JsonView::Null),
            ("presence"@, JsonView::Str("unknown"@)),
            ("message"@, JsonView::Str(scaffold_note())),
        ],
    )
}

impl Tool for GetUserProfile {
    fn name(&self) -> (r: &'static str)
        ensures
            r@ == "get-user-profile"@,
    {
        "get-user-profile"
    }

    fn description(&self) -> (r: &'static str)
        ensures
            r@
                == "Get profile information for a specific Matrix user including display name, avatar, and presence"@,
    {
        "Get profile information for a specific Matrix user including display name, avatar, and presence"
    }

    fn input_schema(&self) -> (r: JsonValue)
        ensures
            r@ == schema_view(
                seq![
                    (
                        "targetUserId"@,
                        string_property("Target user's Matrix ID (e.g., @user:domain.com)"@),
                    ),
                ],
                seq![JsonView::Str("targetUserId"@)],
            ),
    {
        let ps = vec![
            member("targetUserId", string_prop("Target user's Matrix ID (e.g., @user:domain.com)")),
        ];
        let qs = vec![text_value("targetUserId")];
        let ghost (pg, qg) = (ps@, qs@);
        assert(members_view(pg) =~= seq![
            ("targetUserId"@, string_property("Target user's Matrix ID (e.g., @user:domain.com)"@)),
        ]);
        assert(items_view(qg) =~= seq![JsonView::Str("targetUserId"@)]);
        schema(ps, qs)
    }

    fn execute(&self, args: JsonValue) -> (r: Result<JsonValue, AppError>)
        ensures
            match str_member(args, "targetUserId"@) {
                Some(user) => r matches Ok(v) && v@ == user_profile_answer(user),
                None => r matches Err(AppError::InvalidParameter(m)) && m@
                    == "targetUserId is required"@,
            },
    {
        match args.str_member("targetUserId") {
            Some(user) => {
                let ms = vec![
                    member("userId", text_value(user.as_str())),
                    member("displayName", JsonValue::Null),
                    member("avatarUrl", JsonValue::Null),
                    member("presence", text_value("unknown")),
                    note_member(),
                ];
                let ghost g = ms@;
                assert(members_view(g) =~= user_profile_answer(user@)->Object_0);
                Ok(object(ms))
            },
            None => Err(AppError::InvalidParameter(owned("targetUserId is required"))),
        }
    }
}

} // verus!
