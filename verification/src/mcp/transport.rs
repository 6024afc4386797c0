//! What the streaming and agent endpoints answer.

use vstd::prelude::*;

use crate::json::{member, members_view, object, text_value, JsonValue, JsonView};
use crate::text::{append_decimal_wide, decimal, owned};

verus! {

/// The query of a streaming connection.
pub struct SseQuery {
    pub session_id: Option<String>,
}

/// The session a streaming connection belongs to: the one the query names,
/// else one named after the time it opened, in milliseconds since the epoch.
pub open spec fn spec_session_id(given: Option<Seq<char>>, now_millis: u128) -> Seq<char> {
    match given {
        Some(s) => s,
        None => "sess-"@ + decimal(now_millis as nat),
    }
}

/// The session a streaming connection belongs to.
pub fn session_id(query: SseQuery, now_millis: u128) -> (r: String)
    ensures
        r@ == spec_session_id(
            match query.session_id {
                Some(s) => Some(s@),
                None => None,
            },
            now_millis,
        ),
{
    match query.session_id {
        Some(s) => s,
        None => {
            let mut s = owned("sess-");
            append_decimal_wide(&mut s, now_millis);
            s
        },
    }
}

/// The first event of a streaming connection: its session.
pub open spec fn connected_event_view(session: Seq<char>) -> JsonView {
    JsonView::Object(seq![("session_id"@, JsonView::Str(session))])
}

/// The first event of a streaming connection.
pub fn connected_event(session: &str) -> (r: JsonValue)
    ensures
        r@ == connected_event_view(session@),
{
    let ms = vec![member("session_id", text_value(session))];
    let ghost g = ms@;
    assert(members_view(g) =~= connected_event_view(session@)->Object_0);
    object(ms)
}

/// What the agent endpoint tells another agent about this server.
pub open spec fn agent_card_view(auth_required: bool) -> JsonView {
    JsonView::Object(
        seq![
            ("protocol"@, JsonView::Str("A2A-v1"@)),
            (
                "capabilities"@,
                JsonView::Object(
                    seq![
                        ("streaming"@, JsonView::Bool(true)),
                        ("tools"@, JsonView::Bool(true)),
                        ("multiModal"@, JsonView::Bool(false)),
                    ],
                ),
            ),
            ("authentication"@, JsonView::Object(seq![("required"@, JsonView::Bool(auth_required))])),
        ],
    )
}

/// What the agent endpoint tells another agent about this server.
pub fn agent_card(auth_required: bool) -> (r: JsonValue)
    ensures
        r@ == agent_card_view(auth_required),
{
    let caps = vec![
        member("streaming", JsonValue::Bool(true)),
        member("tools", JsonValue::Bool(true)),
        member("multiModal", JsonValue::Bool(false)),
    ];
    let ghost cg = caps@;
    assert(members_view(cg) =~= seq![
        ("streaming"@, JsonView::Bool(true)),
        ("tools"@, JsonView::Bool(true)),
        ("multiModal"@, JsonView::Bool(false)),
    ]);
    let auth = vec![member("required", JsonValue::Bool(auth_required))];
    let ghost ag = auth@;
    assert(members_view(ag) =~= seq![("required"@, JsonView::Bool(auth_required))]);
    let ms = vec![
        member("protocol", text_value("A2A-v1")),
        member("capabilities", object(caps)),
        member("authentication", object(auth)),
    ];
    let ghost g = ms@;
    assert(members_view(g) =~= agent_card_view(auth_required)->Object_0);
    object(ms)
}

} // verus!
