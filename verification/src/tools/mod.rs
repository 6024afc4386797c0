//! The tools the server offers: each one's name, description, input schema
//! and the answer it gives to a call.

use vstd::prelude::*;

use crate::error::AppError;
use crate::json::{
    array, count_value, member, members_view, object, text_value, JsonValue, JsonView,
    NumberView,
};

pub mod tier0;
pub mod tier1;

verus! {

/// A tool of the server.
pub trait Tool {
    /// The name a client calls the tool by.
    fn name(&self) -> &'static str;

    /// What the tool does, in a sentence.
    fn description(&self) -> &'static str;

    /// The JSON schema of the tool's arguments.
    fn input_schema(&self) -> JsonValue;

    /// Runs the tool on its arguments.
    fn execute(&self, args: JsonValue) -> Result<JsonValue, AppError>;
}

/// The note every tool adds to its answer.
pub open spec fn scaffold_note() -> Seq<char> {
    "Tool scaffolded - Matrix client integration pending"@
}

/// An object schema with the given properties and required names; no other
/// property is allowed.
pub open spec fn schema_view(
    properties: Seq<(Seq<char>, JsonView)>,
    required: Seq<JsonView>,
) -> JsonView {
    JsonView::Object(
        seq![
            ("type"@, JsonView::Str("object"@)),
            ("properties"@, JsonView::Object(properties)),
            ("required"@, JsonView::Array(required)),
            ("additionalProperties"@, JsonView::Bool(false)),
        ],
    )
}

/// The schema of a tool that takes no arguments.
pub open spec fn no_arguments_schema() -> JsonView {
    schema_view(Seq::empty(), Seq::empty())
}

/// A string property with the given description.
pub open spec fn string_property(description: Seq<char>) -> JsonView {
    JsonView::Object(
        seq![("type"@, JsonView::Str("string"@)), ("description"@, JsonView::Str(description))],
    )
}

/// An integer property between 1 and 100, 20 when absent.
pub open spec fn limit_property(description: Seq<char>) -> JsonView {
    JsonView::Object(
        seq![
            ("type"@, JsonView::Str("integer"@)),
            ("description"@, JsonView::Str(description)),
            ("default"@, JsonView::Number(NumberView::PosInt(20))),
            ("minimum"@, JsonView::Number(NumberView::PosInt(1))),
            ("maximum"@, JsonView::Number(NumberView::PosInt(100))),
        ],
    )
}

/// The answer of a tool that reports only its note.
pub open spec fn note_only_view() -> JsonView {
    JsonView::Object(seq![("message"@, JsonView::Str(scaffold_note()))])
}

/// The answer of an action tool: success and the note.
pub open spec fn done_view() -> JsonView {
    JsonView::Object(
        seq![("success"@, JsonView::Bool(true)), ("message"@, JsonView::Str(scaffold_note()))],
    )
}

/// The text of the note, as a member of an answer.
pub fn note_member() -> (r: (String, JsonValue))
    ensures
        r.0@ == "message"@,
        r.1@ == JsonView::Str(scaffold_note()),
{
    member("message", text_value("Tool scaffolded - Matrix client integration pending"))
}

/// An object schema with the given properties and required names.
pub fn schema(properties: Vec<(String, JsonValue)>, required: Vec<JsonValue>) -> (r: JsonValue)
    ensures
        r@ == schema_view(members_view(properties@), crate::json::items_view(required@)),
{
    let ghost pv = members_view(properties@);
    let ghost qv = crate::json::items_view(required@);
    let ms = vec![
        member("type", text_value("object")),
        member("properties", object(properties)),
        member("required", array(required)),
        member("additionalProperties", JsonValue::Bool(false)),
    ];
    let ghost g = ms@;
    assert(members_view(g) =~= seq![
        ("type"@, JsonView::Str("object"@)),
        ("properties"@, JsonView::Object(pv)),
        ("required"@, JsonView::Array(qv)),
        ("additionalProperties"@, JsonView::Bool(false)),
    ]);
    object(ms)
}

/// The schema of a tool that takes no arguments.
pub fn no_arguments() -> (r: JsonValue)
    ensures
        r@ == no_arguments_schema(),
{
    let r = schema(Vec::new(), Vec::new());
    assert(members_view(Seq::empty()) =~= Seq::empty());
    assert(crate::json::items_view(Seq::<JsonValue>::empty()) =~= Seq::empty());
    r
}

/// A string property with the given description.
pub fn string_prop(description: &str) -> (r: JsonValue)
    ensures
        r@ == string_property(description@),
{
    let ms = vec![member("type", text_value("string")), member("description", text_value(description))];
    let ghost g = ms@;
    assert(members_view(g) =~= seq![("type"@, JsonView::Str("string"@)), ("description"@, JsonView::Str(description@))]);
    object(ms)
}

/// An integer property between 1 and 100, 20 when absent.
pub fn limit_prop(description: &str) -> (r: JsonValue)
    ensures
        r@ == limit_property(description@),
{
    let ms = vec![
        member("type", text_value("integer")),
        member("description", text_value(description)),
        member("default", count_value(20)),
        member("minimum", count_value(1)),
        member("maximum", count_value(100)),
    ];
    let ghost g = ms@;
    assert(members_view(g) =~= seq![
        ("type"@, JsonView::Str("integer"@)),
        ("description"@, JsonView::Str(description@)),
        ("default"@, JsonView::Number(NumberView::PosInt(20))),
        ("minimum"@, JsonView::Number(NumberView::PosInt(1))),
        ("maximum"@, JsonView::Number(NumberView::PosInt(100))),
    ]);
    object(ms)
}

/// The answer of a tool that reports only its note.
pub fn note_only() -> (r: JsonValue)
    ensures
        r@ == note_only_view(),
{
    let ms = vec![note_member()];
    let ghost g = ms@;
    assert(members_view(g) =~= seq![("message"@, JsonView::Str(scaffold_note()))]);
    object(ms)
}

/// The answer of an action tool: success and the note.
pub fn done() -> (r: JsonValue)
    ensures
        r@ == done_view(),
{
    let ms = vec![member("success", JsonValue::Bool(true)), note_member()];
    let ghost g = ms@;
    assert(members_view(g) =~= seq![
        ("success"@, JsonView::Bool(true)),
        ("message"@, JsonView::Str(scaffold_note())),
    ]);
    object(ms)
}

} // verus!
