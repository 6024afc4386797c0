//! Room messages: reading them out of timeline events, selecting them by date,
//! and ranking senders by how much they wrote.

use vstd::prelude::*;

use crate::json::{i64_member, spec_get, str_member, JsonValue};
use crate::text::str_eq;

verus! {

/// A message: who sent it, its text, and when the server received it (milliseconds since the epoch).
pub struct MessageRecord {
    pub sender: String,
    pub body: String,
    pub ts: i64,
}

/// A message as mathematical values.
pub struct MessageView {
    pub sender: Seq<char>,
    pub body: Seq<char>,
    pub ts: i64,
}

impl View for MessageRecord {
    type V = MessageView;

    open spec fn view(&self) -> MessageView {
        MessageView { sender: self.sender@, body: self.body@, ts: self.ts }
    }
}

/// The messages of a list, as mathematical values.
pub open spec fn records_view(rs: Seq<MessageRecord>) -> Seq<MessageView> {
    rs.map_values(|r: MessageRecord| r@)
}

/// The event object of a timeline entry: its `event` member when it has one, else the entry itself.
pub open spec fn event_of(v: JsonValue) -> JsonValue {
    match spec_get(v, "event"@) {
        Some(e) => e,
        None => v,
    }
}

/// The text of the `body` member of an event's `content`, if there is one.
pub open spec fn content_body(ev: JsonValue) -> Option<Seq<char>> {
    match spec_get(ev, "content"@) {
        Some(c) => str_member(c, "body"@),
        None => None,
    }
}

/// The message a timeline entry carries: only `m.room.message` events with a
/// non-empty body count; a missing sender reads `unknown`, a missing time 0.
pub open spec fn spec_parse_event(v: JsonValue) -> Option<MessageView> {
    let ev = event_of(v);
    if str_member(ev, "type"@) == Some("m.room.message"@) {
        let sender = match str_member(ev, "sender"@) {
            Some(s) => s,
            None => "unknown"@,
        };
        let body = match content_body(ev) {
            Some(b) => b,
            None => Seq::<char>::empty(),
        };
        let ts = match i64_member(ev, "origin_server_ts"@) {
            Some(t) => t,
            None => 0,
        };
        if body.len() > 0 {
            Some(MessageView { sender, body, ts })
        } else {
            None
        }
    } else {
        None
    }
}

/// The messages carried by a list of timeline entries, in order; an entry
/// that could not be read as JSON (`None`) carries none.
pub open spec fn spec_parse_events(es: Seq<Option<JsonValue>>) -> Seq<MessageView>
    decreases es.len(),
{
    if es.len() == 0 {
        Seq::empty()
    } else {
        let prev = spec_parse_events(es.drop_last());
        match es.last() {
            Some(v) => match spec_parse_event(v) {
                Some(m) => prev.push(m),
                None => prev,
            },
            None => prev,
        }
    }
}

/// A timeline entry carries a message exactly when its event (the entry's
/// `event` member, or the entry itself) has type `m.room.message` and a
/// non-empty string `content.body`, whatever else the content holds (its
/// `msgtype` included). The message is that body, sent by the event's
/// `sender` (`unknown` when missing) at its `origin_server_ts` (0 when missing).
pub proof fn law_message_event_read(v: JsonValue)
    ensures
        ({
            let ev = match spec_get(v, "event"@) {
                Some(e) => e,
                None => v,
            };
            let body = match spec_get(ev, "content"@) {
                Some(c) => str_member(c, "body"@),
                None => None,
            };
            let is_message = str_member(ev, "type"@) == Some("m.room.message"@) && body is Some
                && body->0.len() > 0;
            &&& is_message ==> spec_parse_event(v) == Some(
                MessageView {
                    sender: match str_member(ev, "sender"@) {
                        Some(s) => s,
                        None => "unknown"@,
                    },
                    body: body->0,
                    ts: match i64_member(ev, "origin_server_ts"@) {
                        Some(t) => t,
                        None => 0,
                    },
                },
            )
            &&& !is_message ==> spec_parse_event(v) is None
        }),
{
}

/// Each entry adds the message it carries, if any, after those of the
/// entries before it; an entry that is not JSON adds none.
pub proof fn law_message_entries_in_order(es: Seq<Option<JsonValue>>, v: Option<JsonValue>)
    ensures
        spec_parse_events(es.push(v)) == match v {
            Some(j) => match spec_parse_event(j) {
                Some(m) => spec_parse_events(es).push(m),
                None => spec_parse_events(es),
            },
            None => spec_parse_events(es),
        },
        spec_parse_events(Seq::empty()) == Seq::<MessageView>::empty(),
{
    assert(es.push(v).drop_last() =~= es);
}

/// Reads the message a timeline entry carries, if any.
pub fn parse_event(v: &JsonValue) -> (r: Option<MessageRecord>)
    ensures
        match r {
            Some(m) => spec_parse_event(*v) == Some(m@),
            None => spec_parse_event(*v) is None,
        },
{
    let ev = match v.get("event") {
        Some(e) => e,
        None => v,
    };
    let is_message = match ev.str_member("type") {
        Some(t) => str_eq(t.as_str(), "m.room.message"),
        None => false,
    };
    if !is_message {
        return None;
    }
    let sender = match ev.str_member("sender") {
        Some(s) => s.clone(),
        None => String::from_str("unknown"),
    };
    let body = match ev.get("content") {
        Some(c) => match c.str_member("body") {
            Some(b) => b.clone(),
            None => String::new(),
        },
        None => String::new(),
    };
    let ts = match ev.get("origin_server_ts") {
        Some(t) => match t.as_i64() {
            Some(n) => n,
            None => 0,
        },
        None => 0,
    };
    if body.as_str().is_empty() {
        None
    } else {
        Some(MessageRecord { sender, body, ts })
    }
}

/// Reads the messages carried by timeline entries, keeping their order.
pub fn parse_message_events(events: &Vec<Option<JsonValue>>) -> (r: Vec<MessageRecord>)
    ensures
        records_view(r@) == spec_parse_events(events@),
{
    let mut out: Vec<MessageRecord> = Vec::new();
    let mut i: usize = 0;
    while i < events.len()
        invariant
            i <= events@.len(),
            records_view(out@) == spec_parse_events(events@.subrange(0, i as int)),
        decreases events@.len() - i,
    {
        let ghost prefix = events@.subrange(0, i + 1);
        assert(prefix.drop_last() =~= events@.subrange(0, i as int));
        let ghost before = out@;
        match &events[i] {
            Some(v) => match parse_event(v) {
                Some(m) => {
                    out.push(m);
                    assert(records_view(out@) =~= records_view(before).push(m@));
                },
                None => {},
            },
            None => {},
        }
        i = i + 1;
    }
    assert(events@.subrange(0, events@.len() as int) =~= events@);
    out
}

/// The instant an RFC 3339 date names, in milliseconds since the epoch, as `chrono` reads it.
pub uninterp spec fn rfc3339_millis(s: Seq<char>) -> Option<i64>;

/// `chrono::DateTime::parse_from_rfc3339(s)`, taken to its millisecond timestamp.
/// The contract names the answer and says no more.
#[verifier::external_body]
fn parse_rfc3339_millis(s: &str) -> (r: Option<i64>)
    ensures
        r == rfc3339_millis(s@),
{
    match chrono::DateTime::parse_from_rfc3339(s) {
        Ok(d) => Some(d.timestamp_millis()),
        Err(_) => None,
    }
}

/// The midnight (UTC) that begins the calendar date `s` names, read with the
/// `chrono` format `fmt`, in milliseconds since the epoch.
pub uninterp spec fn date_midnight_millis(s: Seq<char>, fmt: Seq<char>) -> Option<i64>;

/// `chrono::NaiveDate::parse_from_str(s, fmt)`, taken to the millisecond
/// timestamp of that day's midnight in UTC. The contract names the answer
/// and says no more.
#[verifier::external_body]
fn parse_date_midnight_millis(s: &str, fmt: &str) -> (r: Option<i64>)
    ensures
        r == date_midnight_millis(s@, fmt@),
{
    match chrono::NaiveDate::parse_from_str(s, fmt) {
        Ok(d) => Some(d.and_time(chrono::NaiveTime::MIN).and_utc().timestamp_millis()),
        Err(_) => None,
    }
}

/// The form of a date without a time: `YYYY-MM-DD`.
pub open spec fn calendar_date_format() -> Seq<char> {
    "%Y-%m-%d"@
}

/// The instant an ISO 8601 date names: an RFC 3339 date and time as it
/// stands, or a calendar date as the midnight (UTC) that begins it.
pub open spec fn date_instant(s: Seq<char>) -> Option<i64> {
    match rfc3339_millis(s) {
        Some(t) => Some(t),
        None => date_midnight_millis(s, calendar_date_format()),
    }
}

/// The instant a date names, as `date_instant` reads it.
fn read_date(s: &str) -> (r: Option<i64>)
    ensures
        r == date_instant(s@),
{
    match parse_rfc3339_millis(s) {
        Some(t) => Some(t),
        None => parse_date_midnight_millis(s, "%Y-%m-%d"),
    }
}

/// The start of a date range: the date's instant, or the epoch when it cannot be read.
pub open spec fn spec_range_start(start_date: Seq<char>) -> i64 {
    match date_instant(start_date) {
        Some(t) => t,
        None => 0,
    }
}

/// The end of a date range: the date's instant, or the end of time when it cannot be read.
pub open spec fn spec_range_end(end_date: Seq<char>) -> i64 {
    match date_instant(end_date) {
        Some(t) => t,
        None => i64::MAX,
    }
}

/// The bounds, in milliseconds, of the range between two ISO 8601 dates: a
/// date and time stands for its instant, a calendar date (`YYYY-MM-DD`) for
/// its midnight in UTC, and a side that reads as neither is left open.
pub fn date_bounds(start_date: &str, end_date: &str) -> (r: (i64, i64))
    ensures
        r.0 == spec_range_start(start_date@),
        r.1 == spec_range_end(end_date@),
        rfc3339_millis(start_date@) is None ==> r.0 == match date_midnight_millis(
            start_date@,
            calendar_date_format(),
        ) {
            Some(t) => t,
            None => 0,
        },
{
    let start = match read_date(start_date) {
        Some(t) => t,
        None => 0,
    };
    let end = match read_date(end_date) {
        Some(t) => t,
        None => i64::MAX,
    };
    (start, end)
}

/// The messages received between `start` and `end`, both included, in order.
pub open spec fn spec_in_range(ms: Seq<MessageView>, start: i64, end: i64) -> Seq<MessageView>
    decreases ms.len(),
{
    if ms.len() == 0 {
        Seq::empty()
    } else {
        let prev = spec_in_range(ms.drop_last(), start, end);
        if start <= ms.last().ts && ms.last().ts <= end {
            prev.push(ms.last())
        } else {
            prev
        }
    }
}

/// The messages kept for a range all fall in it, come from the list, and
/// every message of the list that falls in it is kept.
pub proof fn law_range_keeps_exactly(ms: Seq<MessageView>, start: i64, end: i64)
    ensures
        forall|i: int|
            0 <= i < spec_in_range(ms, start, end).len() ==> start <= (#[trigger] spec_in_range(
                ms,
                start,
                end,
            )[i]).ts <= end && ms.contains(spec_in_range(ms, start, end)[i]),
        forall|k: int|
            0 <= k < ms.len() && start <= (#[trigger] ms[k]).ts <= end ==> spec_in_range(
                ms,
                start,
                end,
            ).contains(ms[k]),
        spec_in_range(ms, start, end).len() <= ms.len(),
    decreases ms.len(),
{
    if ms.len() > 0 {
        let rest = ms.drop_last();
        law_range_keeps_exactly(rest, start, end);
        let prev = spec_in_range(rest, start, end);
        let cur = spec_in_range(ms, start, end);
        assert forall|i: int| 0 <= i < cur.len() implies start <= (#[trigger] cur[i]).ts <= end
            && ms.contains(cur[i]) by {
            if i < prev.len() {
                assert(cur[i] == prev[i]);
                assert(rest.contains(prev[i]));
                let j = choose|j: int| 0 <= j < rest.len() && rest[j] == prev[i];
                assert(ms[j] == rest[j]);
            } else {
                assert(cur[i] == ms.last());
                assert(ms[ms.len() - 1] == ms.last());
            }
        }
        assert forall|k: int| 0 <= k < ms.len() && start <= (#[trigger] ms[k]).ts <= end implies cur.contains(
            ms[k],
        ) by {
            if k < rest.len() {
                assert(ms[k] == rest[k]);
                assert(prev.contains(rest[k]));
                let j = choose|j: int| 0 <= j < prev.len() && prev[j] == rest[k];
                assert(cur[j] == prev[j]);
            } else {
                assert(cur[cur.len() - 1] == ms.last());
            }
        }
    }
}

/// Keeps the messages received between `start` and `end`, both included, in order.
pub fn messages_in_range(records: &Vec<MessageRecord>, start: i64, end: i64) -> (r: Vec<MessageRecord>)
    ensures
        records_view(r@) == spec_in_range(records_view(records@), start, end),
{
    let mut out: Vec<MessageRecord> = Vec::new();
    let mut i: usize = 0;
    while i < records.len()
        invariant
            i <= records@.len(),
            records_view(out@) == spec_in_range(records_view(records@.subrange(0, i as int)), start, end),
        decreases records@.len() - i,
    {
        let ghost next = records_view(records@.subrange(0, i + 1));
        assert(next.drop_last() =~= records_view(records@.subrange(0, i as int)));
        assert(next.last() == records@[i as int]@);
        let ghost before = out@;
        let r = &records[i];
        if start <= r.ts && r.ts <= end {
            let m = MessageRecord { sender: r.sender.clone(), body: r.body.clone(), ts: r.ts };
            out.push(m);
            assert(records_view(out@) =~= records_view(before).push(m@));
        }
        i = i + 1;
    }
    assert(records@.subrange(0, records@.len() as int) =~= records@);
    out
}

} // verus!
