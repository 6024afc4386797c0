//! The answers of the tools that read a room's messages.

use vstd::prelude::*;

use crate::json::JsonValue;
use crate::mcp::activity::{
    activity_view, distinct_in_order, is_ranking, rank_active_users, senders_of,
};
use crate::mcp::messages::{
    date_bounds, messages_in_range, parse_message_events, records_view, spec_in_range,
    spec_parse_events, spec_range_end, spec_range_start, MessageRecord, MessageView,
};
use crate::mcp::output::{
    failure_view, lemma_texts_push, single_view, success_view, texts_view, ToolOutput,
    ToolOutputView,
};
use crate::text::{append_decimal, concat2, decimal, owned};

verus! {

/// A limit as given, or `default` when none is given, and never below 1.
pub open spec fn effective_limit(limit: Option<i64>, default: i64) -> i64 {
    let l = match limit {
        Some(v) => v,
        None => default,
    };
    if l < 1 {
        1
    } else {
        l
    }
}

/// A limit as given, or `default` when none is given, and never below 1.
pub fn limit_or(limit: Option<i64>, default: i64) -> (r: i64)
    ensures
        r == effective_limit(limit, default),
{
    let l = match limit {
        Some(v) => v,
        None => default,
    };
    if l < 1 {
        1
    } else {
        l
    }
}

/// A limit as `effective_limit` gives it, held in 32 bits: a larger one
/// becomes the largest 32-bit number.
pub open spec fn capped_limit(limit: Option<i64>, default: i64) -> u32 {
    let l = effective_limit(limit, default);
    if l > u32::MAX {
        u32::MAX
    } else {
        l as u32
    }
}

/// A limit as given, or `default`, never below 1, held in 32 bits.
pub fn limit_u32(limit: Option<i64>, default: i64) -> (r: u32)
    ensures
        r == capped_limit(limit, default),
{
    let l = limit_or(limit, default);
    if l > u32::MAX as i64 {
        u32::MAX
    } else {
        l as u32
    }
}

/// How many messages to fetch for `get-room-messages`: as many as it may show.
pub fn room_messages_page_size(limit: Option<i64>) -> (r: u32)
    ensures
        r == capped_limit(limit, 20),
        r >= 1,
        effective_limit(limit, 20) <= u32::MAX ==> r == effective_limit(limit, 20),
{
    limit_u32(limit, 20)
}

/// How a message is shown: `{sender}: {body}`.
pub open spec fn message_line(m: MessageView) -> Seq<char> {
    m.sender + ": "@ + m.body
}

/// The lines of a list of messages, one per message.
pub open spec fn message_lines(ms: Seq<MessageView>) -> Seq<Seq<char>> {
    Seq::new(ms.len(), |i: int| message_line(ms[i]))
}

/// `get-room-messages` shows the first messages of the timeline, at most the
/// limit (20 when none is given, never below 1), each as `{sender}: {body}`;
/// with no message at all it says so.
pub proof fn law_room_messages_lines(events: Seq<Option<JsonValue>>, limit: Option<i64>, room_name: Seq<char>)
    ensures
        ({
            let ms = spec_parse_events(events);
            let out = room_messages_view(events, limit, room_name);
            let l = effective_limit(limit, 20);
            &&& ms.len() == 0 ==> out == single_view("No messages found in room "@ + room_name)
            &&& ms.len() > 0 ==> {
                &&& !out.is_error
                &&& out.texts.len() == if l < ms.len() { l as int } else { ms.len() as int }
                &&& forall|i: int| 0 <= i < out.texts.len() ==> #[trigger] out.texts[i] == ms[i].sender + ": "@ + ms[i].body
            }
        }),
{
}

/// One line per message, for the first `count` messages.
fn message_texts(records: &Vec<MessageRecord>, count: usize) -> (texts: Vec<String>)
    requires
        count <= records@.len(),
    ensures
        texts_view(texts@) == message_lines(records_view(records@).take(count as int)),
{
    let mut texts: Vec<String> = Vec::new();
    let mut i: usize = 0;
    while i < count
        invariant
            i <= count <= records@.len(),
            texts_view(texts@) == message_lines(records_view(records@).take(i as int)),
        decreases count - i,
    {
        let r = &records[i];
        let mut s = r.sender.clone();
        s.append(": ");
        s.append(r.body.as_str());
        let ghost before = texts@;
        texts.push(s);
        proof {
            lemma_texts_push(before, s);
            assert(message_lines(records_view(records@).take(i + 1)) =~= message_lines(
                records_view(records@).take(i as int),
            ).push(message_line(records@[i as int]@)));
        }
        i = i + 1;
    }
    texts
}

/// The answer of `get-room-messages`: the first messages of the room's
/// timeline, at most `limit` (20 when not given) of them.
pub open spec fn room_messages_view(
    events: Seq<Option<JsonValue>>,
    limit: Option<i64>,
    room_name: Seq<char>,
) -> ToolOutputView {
    let ms = spec_parse_events(events);
    let l = effective_limit(limit, 20);
    if ms.len() == 0 {
        single_view("No messages found in room "@ + room_name)
    } else {
        success_view(message_lines(ms.take(if l < ms.len() { l as int } else { ms.len() as int })))
    }
}

/// The answer of `get-room-messages`, from the timeline entries the server returned.
pub fn room_messages_output(events: &Vec<Option<JsonValue>>, limit: Option<i64>, room_name: &str) -> (r:
    ToolOutput)
    ensures
        r@ == room_messages_view(events@, limit, room_name@),
{
    let records = parse_message_events(events);
    let l = limit_or(limit, 20);
    if records.len() == 0 {
        return ToolOutput::single(concat2("No messages found in room ", room_name));
    }
    let n = records.len();
    let count: usize = if (l as u64) < (n as u64) { l as usize } else { n };
    let texts = message_texts(&records, count);
    ToolOutput::success(texts)
}

/// The answer of `get-room-messages` when the messages cannot be read.
pub fn room_messages_failure(detail: &str) -> (r: ToolOutput)
    ensures
        r@ == failure_view("get room messages"@, detail@),
{
    ToolOutput::failure("get room messages", detail)
}

/// The answer of `get-messages-by-date`: the messages received between the
/// two dates, both included; a date that cannot be read leaves that side open.
pub open spec fn messages_by_date_view(
    events: Seq<Option<JsonValue>>,
    start_date: Seq<char>,
    end_date: Seq<char>,
    room_name: Seq<char>,
) -> ToolOutputView {
    let ms = spec_in_range(spec_parse_events(events), spec_range_start(start_date), spec_range_end(end_date));
    if ms.len() == 0 {
        single_view(
            "No messages found in room "@ + room_name + " between "@ + start_date + " and "@ + end_date,
        )
    } else {
        success_view(message_lines(ms))
    }
}

/// The answer of `get-messages-by-date`, from the timeline entries the server returned.
pub fn messages_by_date_output(
    events: &Vec<Option<JsonValue>>,
    start_date: &str,
    end_date: &str,
    room_name: &str,
) -> (r: ToolOutput)
    ensures
        r@ == messages_by_date_view(events@, start_date@, end_date@, room_name@),
{
    let records = parse_message_events(events);
    let (start, end) = date_bounds(start_date, end_date);
    let selected = messages_in_range(&records, start, end);
    if selected.len() == 0 {
        let mut s = owned("No messages found in room ");
        s.append(room_name);
        s.append(" between ");
        s.append(start_date);
        s.append(" and ");
        s.append(end_date);
        return ToolOutput::single(s);
    }
    let texts = message_texts(&selected, selected.len());
    assert(records_view(selected@).take(selected@.len() as int) =~= records_view(selected@));
    ToolOutput::success(texts)
}

/// The answer of `get-messages-by-date` when the messages cannot be read.
pub fn messages_by_date_failure(detail: &str) -> (r: ToolOutput)
    ensures
        r@ == failure_view("filter messages by date"@, detail@),
{
    ToolOutput::failure("filter messages by date", detail)
}

/// How a sender's activity is shown: `{sender}: {count} messages`.
pub open spec fn activity_line(p: (Seq<char>, nat)) -> Seq<char> {
    p.0 + ": "@ + decimal(p.1) + " messages"@
}

/// The lines of a ranking, one per sender.
pub open spec fn activity_lines(r: Seq<(Seq<char>, nat)>) -> Seq<Seq<char>> {
    Seq::new(r.len(), |i: int| activity_line(r[i]))
}

/// The answer of `identify-active-users`: the senders of the room's timeline
/// that rank highest, at most `limit` (10 when not given) of them.
pub open spec fn active_users_view(
    events: Seq<Option<JsonValue>>,
    limit: Option<i64>,
    room_name: Seq<char>,
    out: ToolOutputView,
) -> bool {
    let senders = senders_of(spec_parse_events(events));
    if senders.len() == 0 {
        out == single_view("No message activity found in room "@ + room_name)
    } else {
        exists|ranking: Seq<(Seq<char>, nat)>|
            is_ranking(senders, effective_limit(limit, 10) as int, ranking) && out == success_view(
                activity_lines(ranking),
            )
    }
}

/// The answer of `identify-active-users`, from the timeline entries the server returned.
pub fn active_users_output(events: &Vec<Option<JsonValue>>, limit: Option<i64>, room_name: &str) -> (r:
    ToolOutput)
    ensures
        active_users_view(events@, limit, room_name@, r@),
{
    let records = parse_message_events(events);
    let l = limit_or(limit, 10);
    if records.len() == 0 {
        return ToolOutput::single(concat2("No message activity found in room ", room_name));
    }
    let lim: usize = if (l as u64) <= (usize::MAX as u64) { l as usize } else { usize::MAX };
    let ranking = rank_active_users(&records, lim);
    let ghost senders = senders_of(records_view(records@));
    proof {
        let d = distinct_in_order(senders);
        assert(is_ranking(senders, lim as int, activity_view(ranking@)));
        lemma_distinct_len_bound(senders);
        assert(is_ranking(senders, l as int, activity_view(ranking@)));
    }
    let mut texts: Vec<String> = Vec::new();
    let mut i: usize = 0;
    while i < ranking.len()
        invariant
            i <= ranking@.len(),
            texts_view(texts@) == activity_lines(activity_view(ranking@).take(i as int)),
        decreases ranking@.len() - i,
    {
        let mut s = ranking[i].0.clone();
        s.append(": ");
        append_decimal(&mut s, ranking[i].1 as u64);
        s.append(" messages");
        let ghost before = texts@;
        texts.push(s);
        proof {
            lemma_texts_push(before, s);
            assert(activity_lines(activity_view(ranking@).take(i + 1)) =~= activity_lines(
                activity_view(ranking@).take(i as int),
            ).push(activity_line(activity_view(ranking@)[i as int])));
        }
        i = i + 1;
    }
    assert(activity_view(ranking@).take(ranking@.len() as int) =~= activity_view(ranking@));
    ToolOutput::success(texts)
}

proof fn lemma_distinct_len_bound(s: Seq<Seq<char>>)
    ensures
        distinct_in_order(s).len() <= s.len(),
    decreases s.len(),
{
    if s.len() > 0 {
        lemma_distinct_len_bound(s.drop_last());
    }
}

/// The answer of `identify-active-users` when the messages cannot be read.
pub fn active_users_failure(detail: &str) -> (r: ToolOutput)
    ensures
        r@ == failure_view("identify active users"@, detail@),
{
    ToolOutput::failure("identify active users", detail)
}

} // verus!
