//! A tool's answer: a list of texts, marked as a success or as an error.

use vstd::prelude::*;

use crate::matrix::ids::{check_room_id, room_id_accepted};
use crate::text::{concat2, owned};
pub use crate::text::texts_view;

verus! {

/// What a tool call answers: its texts, and whether it reports an error.
pub struct ToolOutput {
    pub texts: Vec<String>,
    pub is_error: bool,
}

/// A tool's answer as mathematical values.
pub struct ToolOutputView {
    pub texts: Seq<Seq<char>>,
    pub is_error: bool,
}


/// Adding a string to a list adds its characters to the list's view.
pub proof fn lemma_texts_push(before: Seq<String>, s: String)
    ensures
        texts_view(before.push(s)) == texts_view(before).push(s@),
{
    assert(texts_view(before.push(s)) =~= texts_view(before).push(s@));
}

impl View for ToolOutput {
    type V = ToolOutputView;

    open spec fn view(&self) -> ToolOutputView {
        ToolOutputView { texts: texts_view(self.texts@), is_error: self.is_error }
    }
}

/// A successful answer made of several texts.
pub open spec fn success_view(texts: Seq<Seq<char>>) -> ToolOutputView {
    ToolOutputView { texts, is_error: false }
}

/// A successful answer made of one text.
pub open spec fn single_view(text: Seq<char>) -> ToolOutputView {
    ToolOutputView { texts: seq![text], is_error: false }
}

/// An error answer made of one text.
pub open spec fn error_view(text: Seq<char>) -> ToolOutputView {
    ToolOutputView { texts: seq![text], is_error: true }
}

/// The error answer for a failed operation: `Error: Failed to {action} - {detail}`.
pub open spec fn failure_view(action: Seq<char>, detail: Seq<char>) -> ToolOutputView {
    error_view("Error: Failed to "@ + action + " - "@ + detail)
}

/// The error answer for a room id that is not well formed.
pub open spec fn bad_room_id_view(room_id: Seq<char>) -> ToolOutputView {
    error_view("Error: Invalid room ID format: "@ + room_id)
}

/// The error answer for a room the user is not in.
pub open spec fn room_not_found_view(room_id: Seq<char>) -> ToolOutputView {
    error_view(
        "Error: Room with ID "@ + room_id + " not found. You may not be a member of this room."@,
    )
}

/// The name shown for a room: its display name, or `Unnamed Room` when it has none.
pub open spec fn spec_room_label(name: Option<Seq<char>>) -> Seq<char> {
    match name {
        Some(n) => n,
        None => "Unnamed Room"@,
    }
}

impl ToolOutput {
    /// A successful answer made of several texts.
    pub fn success(texts: Vec<String>) -> (r: ToolOutput)
        ensures
            r@ == success_view(texts_view(texts@)),
    {
        ToolOutput { texts, is_error: false }
    }

    /// A successful answer made of one text.
    pub fn single(text: String) -> (r: ToolOutput)
        ensures
            r@ == single_view(text@),
    {
        let mut texts = Vec::new();
        texts.push(text);
        let r = ToolOutput { texts, is_error: false };
        assert(r@.texts =~= seq![text@]);
        r
    }

    /// An error answer made of one text.
    pub fn error(text: String) -> (r: ToolOutput)
        ensures
            r@ == error_view(text@),
    {
        let mut texts = Vec::new();
        texts.push(text);
        let r = ToolOutput { texts, is_error: true };
        assert(r@.texts =~= seq![text@]);
        r
    }

    /// The error answer for a failed operation: `Error: Failed to {action} - {detail}`.
    pub fn failure(action: &str, detail: &str) -> (r: ToolOutput)
        ensures
            r@ == failure_view(action@, detail@),
    {
        let mut s = String::from_str("Error: Failed to ");
        s.append(action);
        s.append(" - ");
        s.append(detail);
        ToolOutput::error(s)
    }
}

/// Checks the form of a room id before the room is looked up: `None` when
/// `ruma` accepts it, else the error answer.
pub fn check_room_input(room_id: &str) -> (r: Option<ToolOutput>)
    ensures
        r is None <==> room_id_accepted(room_id@),
        r matches Some(o) ==> o@ == bad_room_id_view(room_id@),
{
    if check_room_id(room_id) {
        None
    } else {
        Some(ToolOutput::error(concat2("Error: Invalid room ID format: ", room_id)))
    }
}

/// The error answer for a room the user is not in.
pub fn room_not_found(room_id: &str) -> (r: ToolOutput)
    ensures
        r@ == room_not_found_view(room_id@),
{
    let mut s = String::from_str("Error: Room with ID ");
    s.append(room_id);
    s.append(" not found. You may not be a member of this room.");
    ToolOutput::error(s)
}

/// The name shown for a room: its display name, or `Unnamed Room` when it has none.
pub fn room_label(name: Option<String>) -> (r: String)
    ensures
        r@ == spec_room_label(crate::config::opt_view(name)),
{
    match name {
        Some(n) => n,
        None => owned("Unnamed Room"),
    }
}

} // verus!
