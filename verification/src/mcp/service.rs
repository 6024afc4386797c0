//! How the HTTP service is set up: who the server says it is, the health
//! report, the address it listens on and the origins it lets in.

use vstd::prelude::*;

use crate::error::AppError;
use crate::json::{member, members_view, object, text_value, JsonValue, JsonView};
use crate::text::{append_decimal, concat2, decimal, owned, push_char};

verus! {

/// The name the server gives itself.
pub const SERVER_NAME: &'static str = "matrix-mcp-server-r2";

/// What the server tells a client it offers.
pub const SERVER_INSTRUCTIONS: &'static str =
    "Matrix MCP Server providing room, message, and user management tools.";

/// The version the server reports.
pub const SERVER_VERSION: &'static str = "0.1.0";

/// The health report for the server signed in as `user_id`.
pub open spec fn health_view(user_id: Seq<char>) -> JsonView {
    JsonView::Object(
        seq![
            ("status"@, JsonView::Str("healthy"@)),
            ("version"@, JsonView::Str("0.1.0"@)),
            ("user_id"@, JsonView::Str(user_id)),
        ],
    )
}

/// The health report for the server signed in as `user_id`.
pub fn health_report(user_id: &str) -> (r: JsonValue)
    ensures
        r@ == health_view(user_id@),
{
    let ms = vec![
        member("status", text_value("healthy")),
        member("version", text_value(SERVER_VERSION)),
        member("user_id", text_value(user_id)),
    ];
    let ghost g = ms@;
    assert(members_view(g) =~= health_view(user_id@)->Object_0);
    object(ms)
}

/// The address the server listens on: every interface, at `port`.
pub open spec fn listen_address_view(port: u16) -> Seq<char> {
    "0.0.0.0:"@ + decimal(port as nat)
}

/// The address the server listens on.
pub fn listen_address(port: u16) -> (r: String)
    ensures
        r@ == listen_address_view(port),
{
    let mut s = owned("0.0.0.0:");
    append_decimal(&mut s, port as u64);
    s
}

/// The error for a server that stopped on a fault.
pub fn server_failure(detail: &str) -> (r: AppError)
    ensures
        r matches AppError::Unknown(m) && m@ == "Server error: "@ + detail@,
{
    AppError::Unknown(concat2("Server error: ", detail))
}

/// Whether `c` is white space in Unicode's sense (what `char::is_whitespace` tests).
pub open spec fn is_white(c: char) -> bool {
    let n = c as u32;
    (9 <= n <= 13) || n == 32 || n == 0x85 || n == 0xA0 || n == 0x1680 || (0x2000 <= n
        <= 0x200A) || n == 0x2028 || n == 0x2029 || n == 0x202F || n == 0x205F || n == 0x3000
}

/// `s` without its leading white space.
pub open spec fn trim_start(s: Seq<char>) -> Seq<char>
    decreases s.len(),
{
    if s.len() > 0 && is_white(s[0]) {
        trim_start(s.drop_first())
    } else {
        s
    }
}

/// `s` without its trailing white space.
pub open spec fn trim_end(s: Seq<char>) -> Seq<char>
    decreases s.len(),
{
    if s.len() > 0 && is_white(s.last()) {
        trim_end(s.drop_last())
    } else {
        s
    }
}

/// `s` without its leading and trailing white space.
pub open spec fn spec_trim(s: Seq<char>) -> Seq<char> {
    trim_end(trim_start(s))
}

/// `str::trim`: removes leading and trailing white space, as `char::is_whitespace`
/// defines it.
#[verifier::external_body]
fn trim(s: &str) -> (r: String)
    ensures
        r@ == spec_trim(s@),
{
    s.trim().to_string()
}

/// Whether every character of `s` may stand in an HTTP header value: a tab,
/// or a character from the space onwards other than DEL. (A character beyond
/// ASCII is encoded in bytes that are all 128 or more.)
pub open spec fn header_text_ok(s: Seq<char>) -> bool {
    forall|i: int| 0 <= i < s.len() ==> (#[trigger] s[i] == '\t' || (s[i] as u32 >= 32 && s[i] as u32 != 127))
}

/// `http::HeaderValue::from_str(s)` succeeds: it accepts exactly the texts
/// whose every byte is a tab, or 32 or more but not 127.
#[verifier::external_body]
fn header_value_accepted(s: &str) -> (r: bool)
    ensures
        r == header_text_ok(s@),
{
    axum::http::HeaderValue::from_str(s).is_ok()
}

/// The pieces of `s` between the occurrences of `sep`, in order; `s` with no
/// `sep` is one piece.
pub open spec fn split_on(s: Seq<char>, sep: char) -> Seq<Seq<char>>
    decreases s.len(),
{
    if s.len() == 0 {
        seq![Seq::empty()]
    } else {
        let before = split_on(s.drop_last(), sep);
        if s.last() == sep {
            before.push(Seq::empty())
        } else {
            before.update(before.len() - 1, before.last().push(s.last()))
        }
    }
}

/// The origins kept from the pieces: each trimmed, those a header can carry.
pub open spec fn kept_origins(pieces: Seq<Seq<char>>) -> Seq<Seq<char>>
    decreases pieces.len(),
{
    if pieces.len() == 0 {
        Seq::empty()
    } else {
        let before = kept_origins(pieces.drop_last());
        let t = spec_trim(pieces.last());
        if header_text_ok(t) {
            before.push(t)
        } else {
            before
        }
    }
}

/// The origins allowed by a comma-separated list: each entry trimmed, those
/// that cannot stand in a header left out.
pub open spec fn allowed_origins_view(list: Seq<char>) -> Seq<Seq<char>> {
    kept_origins(split_on(list, ','))
}

/// The pieces of `s` between commas.
fn split_commas(s: &str) -> (r: Vec<String>)
    ensures
        crate::text::texts_view(r@) == split_on(s@, ','),
{
    let chars = crate::text::chars_of(s);
    let mut pieces: Vec<String> = Vec::new();
    let mut current = String::new();
    let mut i: usize = 0;
    assert(s@.take(0) =~= Seq::<char>::empty());
    while i < chars.len()
        invariant
            i <= chars@.len(),
            chars@ == s@,
            crate::text::texts_view(pieces@).push(current@) == split_on(s@.take(i as int), ','),
        decreases chars@.len() - i,
    {
        let c = chars[i];
        let ghost before = s@.take(i as int);
        assert(s@.take(i + 1).drop_last() =~= before);
        assert(s@.take(i + 1).last() == c);
        if c == ',' {
            let done = current;
            current = String::new();
            let ghost old_pieces = pieces@;
            pieces.push(done);
            proof {
                assert(crate::text::texts_view(pieces@) =~= crate::text::texts_view(old_pieces).push(
                    done@,
                ));
                assert(crate::text::texts_view(pieces@).push(current@) =~= split_on(
                    s@.take(i + 1),
                    ',',
                ));
            }
        } else {
            let ghost old_current = current@;
            push_char(&mut current, c);
            proof {
                assert(crate::text::texts_view(pieces@).push(current@) =~= split_on(
                    s@.take(i + 1),
                    ',',
                ));
            }
        }
        i = i + 1;
    }
    assert(s@.take(i as int) =~= s@);
    let ghost old_pieces = pieces@;
    let last = current;
    pieces.push(last);
    assert(crate::text::texts_view(pieces@) =~= crate::text::texts_view(old_pieces).push(last@));
    pieces
}

/// The origins allowed by a comma-separated list: each entry trimmed, those
/// that cannot stand in a header left out.
pub fn allowed_origins(list: &str) -> (r: Vec<String>)
    ensures
        crate::text::texts_view(r@) == allowed_origins_view(list@),
{
    let pieces = split_commas(list);
    let mut kept: Vec<String> = Vec::new();
    let mut i: usize = 0;
    assert(crate::text::texts_view(pieces@).take(0) =~= Seq::<Seq<char>>::empty());
    while i < pieces.len()
        invariant
            i <= pieces@.len(),
            crate::text::texts_view(pieces@) == split_on(list@, ','),
            crate::text::texts_view(kept@) == kept_origins(
                crate::text::texts_view(pieces@).take(i as int),
            ),
        decreases pieces@.len() - i,
    {
        let ghost all = crate::text::texts_view(pieces@);
        assert(all.take(i + 1).drop_last() =~= all.take(i as int));
        assert(all.take(i + 1).last() == pieces@[i as int]@);
        let t = trim(pieces[i].as_str());
        if header_value_accepted(t.as_str()) {
            let ghost old_kept = kept@;
            kept.push(t);
            assert(crate::text::texts_view(kept@) =~= crate::text::texts_view(old_kept).push(t@));
        }
        i = i + 1;
    }
    assert(crate::text::texts_view(pieces@).take(i as int) =~= crate::text::texts_view(pieces@));
    kept
}

} // verus!
