//! The answer of `search-public-rooms`.

use vstd::prelude::*;

use crate::config::opt_view;
use crate::matrix::ids::{check_server_name, server_name_accepted};
use crate::mcp::output::{
    failure_view, lemma_texts_push, single_view, success_view, texts_view, ToolOutput, ToolOutputView,
};
use crate::mcp::reading::{capped_limit, effective_limit, limit_u32};
use crate::mcp::rooms::or_default;
use crate::text::{append_decimal, decimal, owned};

verus! {

/// A public room as the room directory describes it.
pub struct PublicRoomSummary {
    pub room_id: String,
    pub name: Option<String>,
    pub canonical_alias: Option<String>,
    pub topic: Option<String>,
    pub num_joined_members: u64,
}

/// How many rooms to ask the directory for: the limit given, or 20, never
/// below 1; a limit beyond what 32 bits hold asks for the most they hold.
pub fn public_rooms_limit(limit: Option<i64>) -> (r: u32)
    ensures
        r == capped_limit(limit, 20),
        r >= 1,
        effective_limit(limit, 20) <= u32::MAX ==> r == effective_limit(limit, 20),
{
    limit_u32(limit, 20)
}

/// The server to search on: the one given, when `ruma` accepts it as a server name.
pub fn public_rooms_server(server: &Option<String>) -> (r: Option<String>)
    ensures
        opt_view(r) == match opt_view(*server) {
            Some(s) => if server_name_accepted(s) {
                Some(s)
            } else {
                None
            },
            None => None,
        },
{
    match server {
        Some(s) => if check_server_name(s.as_str()) {
            Some(s.clone())
        } else {
            None
        },
        None => None,
    }
}

/// How a public room is shown.
pub open spec fn public_room_line(r: PublicRoomSummary) -> Seq<char> {
    or_default(opt_view(r.name), "Unnamed Room"@) + " ("@ + or_default(opt_view(r.canonical_alias), r.room_id@)
        + ")\nTopic: "@ + or_default(opt_view(r.topic), "No topic"@) + "\nMembers: "@ + decimal(
        r.num_joined_members as nat,
    ) + "\nRoom ID: "@ + r.room_id@
}

/// The lines of the public rooms found.
pub open spec fn public_room_lines(rs: Seq<PublicRoomSummary>) -> Seq<Seq<char>> {
    Seq::new(rs.len(), |i: int| public_room_line(rs[i]))
}

/// The words that name the search term in the answer: ` matching "{term}"`, or nothing.
pub open spec fn matching_text(term: Option<Seq<char>>) -> Seq<char> {
    match term {
        Some(t) => " matching \""@ + t + "\""@,
        None => Seq::<char>::empty(),
    }
}

/// The answer of `search-public-rooms`.
pub open spec fn public_rooms_view(term: Option<Seq<char>>, rooms: Seq<PublicRoomSummary>) -> ToolOutputView {
    if rooms.len() == 0 {
        single_view(
            match term {
                Some(t) => "No public rooms found matching \""@ + t + "\""@,
                None => "No public rooms found"@,
            },
        )
    } else {
        success_view(
            seq!["Found "@ + decimal(rooms.len()) + " public rooms"@ + matching_text(term) + ":"@]
                + public_room_lines(rooms),
        )
    }
}

fn public_room_text(r: &PublicRoomSummary) -> (s: String)
    ensures
        s@ == public_room_line(*r),
{
    let mut s = match &r.name {
        Some(n) => n.clone(),
        None => owned("Unnamed Room"),
    };
    s.append(" (");
    match &r.canonical_alias {
        Some(a) => s.append(a.as_str()),
        None => s.append(r.room_id.as_str()),
    }
    s.append(")\nTopic: ");
    match &r.topic {
        Some(t) => s.append(t.as_str()),
        None => s.append("No topic"),
    }
    s.append("\nMembers: ");
    append_decimal(&mut s, r.num_joined_members);
    s.append("\nRoom ID: ");
    s.append(r.room_id.as_str());
    s
}

/// The answer of `search-public-rooms`, from the rooms the directory returned.
pub fn public_rooms_output(term: &Option<String>, rooms: &Vec<PublicRoomSummary>) -> (r: ToolOutput)
    ensures
        r@ == public_rooms_view(opt_view(*term), rooms@),
{
    if rooms.len() == 0 {
        let text = match term {
            Some(t) => {
                let mut s = owned("No public rooms found matching \"");
                s.append(t.as_str());
                s.append("\"");
                s
            },
            None => owned("No public rooms found"),
        };
        return ToolOutput::single(text);
    }
    let mut head = owned("Found ");
    append_decimal(&mut head, rooms.len() as u64);
    head.append(" public rooms");
    let matching = match term {
        Some(t) => {
            let mut m = owned(" matching \"");
            m.append(t.as_str());
            m.append("\"");
            m
        },
        None => String::new(),
    };
    head.append(matching.as_str());
    head.append(":");
    let mut texts: Vec<String> = Vec::new();
    texts.push(head);
    let mut i: usize = 0;
    while i < rooms.len()
        invariant
            i <= rooms@.len(),
            texts_view(texts@) == seq![head@] + public_room_lines(rooms@.subrange(0, i as int)),
        decreases rooms@.len() - i,
    {
        let line = public_room_text(&rooms[i]);
        let ghost before = texts@;
        texts.push(line);
        proof {
            lemma_texts_push(before, line);
            assert(public_room_lines(rooms@.subrange(0, i + 1)) =~= public_room_lines(
                rooms@.subrange(0, i as int),
            ).push(public_room_line(rooms@[i as int])));
            assert(seq![head@] + public_room_lines(rooms@.subrange(0, i + 1)) =~= (seq![head@]
                + public_room_lines(rooms@.subrange(0, i as int))).push(line@));
        }
        i = i + 1;
    }
    assert(rooms@.subrange(0, rooms@.len() as int) =~= rooms@);
    ToolOutput::success(texts)
}

/// The answer of `search-public-rooms` when the directory cannot be read.
pub fn public_rooms_failure(detail: &str) -> (r: ToolOutput)
    ensures
        r@ == failure_view("search public rooms"@, detail@),
{
    ToolOutput::failure("search public rooms", detail)
}

} // verus!
