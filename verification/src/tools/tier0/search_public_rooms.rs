//! The `search-public-rooms` tool.

use vstd::prelude::*;

use crate::error::AppError;
use crate::json::{array, count_value, items_view, member, members_view, object, JsonValue, JsonView, NumberView};
use crate::tools::tier0::get_room_messages::{limit_argument, requested_limit};
use crate::tools::{
    limit_prop, limit_property, note_member, scaffold_note, schema, schema_view, string_prop,
    string_property, Tool,
};

verus! {

/// Searches the public room directory.
pub struct SearchPublicRooms;

/// The answer for the limit `limit`.
pub open spec fn public_rooms_answer(limit: u64) -> JsonView {
    JsonView::Object(
        seq![
            ("rooms"@, JsonView::Array(Seq::empty())),
            ("count"@, JsonView::Number(NumberView::PosInt(0))),
            ("limit"@, JsonView::Number(NumberView::PosInt(limit))),
            ("message"@, JsonView::Str(scaffold_note())),
        ],
    )
}

impl Tool for SearchPublicRooms {
    fn name(&self) -> (r: &'static str)
        ensures
            r@ == "search-public-rooms"@,
    {
        "search-public-rooms"
    }

    fn description(&self) -> (r: &'static str)
        ensures
            r@
                == "Search for public Matrix rooms that you can join, with optional filtering by name or topic"@,
    {
        "Search for public Matrix rooms that you can join, with optional filtering by name or topic"
    }

    fn input_schema(&self) -> (r: JsonValue)
        ensures
            r@ == schema_view(
                seq![
                    ("searchTerm"@, string_property("Search term to filter rooms by name or topic"@)),
                    (
                        "server"@,
                        string_property(
                            "Specific server to search rooms on (defaults to your homeserver)"@,
                        ),
                    ),
                    ("limit"@, limit_property("Maximum number of rooms to return (default: 20)"@)),
                ],
                Seq::empty(),
            ),
    {
        let ps = vec![
            member("searchTerm", string_prop("Search term to filter rooms by name or topic")),
            member(
                "server",
                string_prop("Specific server to search rooms on (defaults to your homeserver)"),
            ),
            member("limit", limit_prop("Maximum number of rooms to return (default: 20)")),
        ];
        let ghost pg = ps@;
        assert(members_view(pg) =~= seq![
            ("searchTerm"@, string_property("Search term to filter rooms by name or topic"@)),
            (
                "server"@,
                string_property("Specific server to search rooms on (defaults to your homeserver)"@),
            ),
            ("limit"@, limit_property("Maximum number of rooms to return (default: 20)"@)),
        ]);
        assert(items_view(Seq::<JsonValue>::empty()) =~= Seq::empty());
        schema(ps, Vec::new())
    }

    fn execute(&self, args: JsonValue) -> (r: Result<JsonValue, AppError>)
        ensures
            r matches Ok(v) && v@ == public_rooms_answer(requested_limit(args)),
    {
        let limit = limit_argument(&args);
        let rooms = array(Vec::new());
        assert(items_view(Seq::<JsonValue>::empty()) =~= Seq::empty());
        let ms = vec![
            member("rooms", rooms),
            member("count", count_value(0)),
            member("limit", count_value(limit)),
            note_member(),
        ];
        let ghost g = ms@;
        assert(members_view(g) =~= public_rooms_answer(limit)->Object_0);
        Ok(object(ms))
    }
}

} // verus!
