//! The answers of the tools about users: profiles, the users the client
//! knows, direct-message conversations and unread notifications.

use vstd::prelude::*;

use crate::config::opt_view;
use crate::matrix::ids::{check_user_id, user_id_rejection};
use crate::mcp::output::{
    error_view, failure_view, lemma_texts_push, single_view, success_view, texts_view, ToolOutput,
    ToolOutputView,
};
use crate::mcp::rooms::{member_line, member_text, or_default, MemberSummary};
use crate::text::{append_decimal, concat2, decimal, join_strings, join_with, owned};

verus! {

/// How many joined rooms the profile tools look through for shared rooms.
pub const MAX_ROOMS_SCANNED: usize = 100;

/// How many shared rooms `get-user-profile` lists at most.
pub const MAX_SHARED_ROOMS: usize = 5;

/// Whether a room counts as a direct-message conversation: exactly two joined members.
pub open spec fn spec_is_direct_room(joined_members: u64) -> bool {
    joined_members == 2
}

/// Whether a room counts as a direct-message conversation: exactly two joined members.
pub fn is_direct_room(joined_members: u64) -> (r: bool)
    ensures
        r == spec_is_direct_room(joined_members),
{
    joined_members == 2
}

/// Checks the user id given to `get-user-profile`: `None` when `ruma` accepts it, else the error answer.
pub fn check_profile_target(user_id: &str) -> (r: Option<ToolOutput>)
    ensures
        r is None <==> user_id_rejection(user_id@) is None,
        r matches Some(o) ==> o@ == error_view("Error: Invalid user ID format: "@ + user_id@),
{
    match check_user_id(user_id) {
        None => None,
        Some(_) => Some(ToolOutput::error(concat2("Error: Invalid user ID format: ", user_id))),
    }
}

/// How a shared room is named: its canonical alias, or its id when it has none.
pub open spec fn spec_room_handle(alias: Option<Seq<char>>, room_id: Seq<char>) -> Seq<char> {
    or_default(alias, room_id)
}

/// Adds a room the target user is also in to the shared-room list; answers
/// whether the list is now full, so that the search can stop.
pub fn record_shared_room(shared: &mut Vec<String>, alias: Option<String>, room_id: &str) -> (full: bool)
    ensures
        texts_view(final(shared)@) == texts_view(old(shared)@).push(spec_room_handle(opt_view(alias), room_id@)),
        full == (final(shared)@.len() >= MAX_SHARED_ROOMS),
{
    let handle = match alias {
        Some(a) => a,
        None => owned(room_id),
    };
    let ghost before = shared@;
    shared.push(handle);
    proof {
        lemma_texts_push(before, handle);
    }
    shared.len() >= MAX_SHARED_ROOMS
}

/// The text of `get-user-profile`.
pub open spec fn user_profile_text(
    user_id: Seq<char>,
    display_name: Option<Seq<char>>,
    avatar: Option<Seq<char>>,
    shared: Seq<Seq<char>>,
) -> Seq<char> {
    "User Profile: "@ + user_id + "\nDisplay Name: "@ + or_default(display_name, "No display name set"@)
        + "\nAvatar: "@ + or_default(avatar, "No avatar set"@) + "\nShared Rooms (up to 5): "@ + if shared.len()
        == 0 {
        "None visible"@
    } else {
        join_with(shared, ", "@)
    }
}

/// The answer of `get-user-profile`.
pub fn user_profile_output(
    user_id: &str,
    display_name: Option<String>,
    avatar: Option<String>,
    shared: &Vec<String>,
) -> (r: ToolOutput)
    ensures
        r@ == single_view(
            user_profile_text(user_id@, opt_view(display_name), opt_view(avatar), texts_view(shared@)),
        ),
{
    let mut s = owned("User Profile: ");
    s.append(user_id);
    s.append("\nDisplay Name: ");
    let dn = match display_name {
        Some(d) => d,
        None => owned("No display name set"),
    };
    s.append(dn.as_str());
    s.append("\nAvatar: ");
    let av = match avatar {
        Some(a) => a,
        None => owned("No avatar set"),
    };
    s.append(av.as_str());
    s.append("\nShared Rooms (up to 5): ");
    let rooms = if shared.len() == 0 {
        owned("None visible")
    } else {
        join_strings(shared, ", ")
    };
    s.append(rooms.as_str());
    ToolOutput::single(s)
}

/// The answer of `get-user-profile` when the profile cannot be read.
pub fn user_profile_failure(detail: &str) -> (r: ToolOutput)
    ensures
        r@ == failure_view("get user profile"@, detail@),
{
    ToolOutput::failure("get user profile", detail)
}

/// How many of the joined rooms count as direct-message conversations.
pub open spec fn count_direct(member_counts: Seq<u64>) -> nat
    decreases member_counts.len(),
{
    if member_counts.len() == 0 {
        0
    } else {
        count_direct(member_counts.drop_last()) + if spec_is_direct_room(member_counts.last()) {
            1nat
        } else {
            0nat
        }
    }
}

/// How many of the joined rooms, given by their numbers of joined members,
/// count as direct-message conversations.
pub fn count_direct_rooms(member_counts: &Vec<u64>) -> (r: usize)
    ensures
        r == count_direct(member_counts@),
{
    let mut c: usize = 0;
    let mut i: usize = 0;
    while i < member_counts.len()
        invariant
            i <= member_counts@.len(),
            c == count_direct(member_counts@.subrange(0, i as int)),
            c <= i,
        decreases member_counts@.len() - i,
    {
        assert(member_counts@.subrange(0, i + 1).drop_last() =~= member_counts@.subrange(0, i as int));
        if is_direct_room(member_counts[i]) {
            c = c + 1;
        }
        i = i + 1;
    }
    assert(member_counts@.subrange(0, member_counts@.len() as int) =~= member_counts@);
    c
}

/// The text of `get-my-profile`; the joined rooms are given by their numbers of joined members.
pub open spec fn my_profile_text(
    user_id: Option<Seq<char>>,
    display_name: Option<Seq<char>>,
    avatar: Option<Seq<char>>,
    member_counts: Seq<u64>,
) -> Seq<char> {
    "My Profile: "@ + or_default(user_id, Seq::<char>::empty()) + "\nDisplay Name: "@ + or_default(
        display_name,
        "No display name set"@,
    ) + "\nAvatar: "@ + or_default(avatar, "No avatar set"@) + "\nJoined Rooms: "@ + decimal(
        member_counts.len(),
    ) + "\nDirect Messages: "@ + decimal(count_direct(member_counts))
}

/// The answer of `get-my-profile`.
pub fn my_profile_output(
    user_id: Option<String>,
    display_name: Option<String>,
    avatar: Option<String>,
    member_counts: &Vec<u64>,
) -> (r: ToolOutput)
    ensures
        r@ == single_view(
            my_profile_text(opt_view(user_id), opt_view(display_name), opt_view(avatar), member_counts@),
        ),
{
    let mut s = owned("My Profile: ");
    let uid = match user_id {
        Some(u) => u,
        None => String::new(),
    };
    s.append(uid.as_str());
    s.append("\nDisplay Name: ");
    let dn = match display_name {
        Some(d) => d,
        None => owned("No display name set"),
    };
    s.append(dn.as_str());
    s.append("\nAvatar: ");
    let av = match avatar {
        Some(a) => a,
        None => owned("No avatar set"),
    };
    s.append(av.as_str());
    s.append("\nJoined Rooms: ");
    append_decimal(&mut s, member_counts.len() as u64);
    s.append("\nDirect Messages: ");
    let dms = count_direct_rooms(member_counts);
    append_decimal(&mut s, dms as u64);
    ToolOutput::single(s)
}

/// The members of a list whose user id has not come before, each at its first place.
pub open spec fn first_by_user(ms: Seq<MemberSummary>) -> Seq<MemberSummary>
    decreases ms.len(),
{
    if ms.len() == 0 {
        Seq::empty()
    } else {
        let prev = first_by_user(ms.drop_last());
        if exists|i: int| 0 <= i < prev.len() && (#[trigger] prev[i]).user_id@ == ms.last().user_id@ {
            prev
        } else {
            prev.push(ms.last())
        }
    }
}

/// The user list names each user once, and names every user of the rooms.
pub proof fn law_each_user_once(ms: Seq<MemberSummary>)
    ensures
        forall|i: int, j: int|
            0 <= i < j < first_by_user(ms).len() ==> (#[trigger] first_by_user(ms)[i]).user_id@
                != (#[trigger] first_by_user(ms)[j]).user_id@,
        forall|k: int|
            0 <= k < ms.len() ==> exists|i: int|
                0 <= i < first_by_user(ms).len() && (#[trigger] first_by_user(ms)[i]).user_id@
                    == (#[trigger] ms[k]).user_id@,
    decreases ms.len(),
{
    if ms.len() > 0 {
        let rest = ms.drop_last();
        law_each_user_once(rest);
        let prev = first_by_user(rest);
        let cur = first_by_user(ms);
        assert forall|k: int| 0 <= k < ms.len() implies exists|i: int|
            0 <= i < cur.len() && (#[trigger] cur[i]).user_id@ == (#[trigger] ms[k]).user_id@ by {
            if k < rest.len() {
                assert(ms[k] == rest[k]);
                let i = choose|i: int| 0 <= i < prev.len() && (#[trigger] prev[i]).user_id@ == rest[k].user_id@;
                assert(cur[i] == prev[i]);
            } else if exists|i: int| 0 <= i < prev.len() && (#[trigger] prev[i]).user_id@ == ms.last().user_id@ {
                let i = choose|i: int| 0 <= i < prev.len() && (#[trigger] prev[i]).user_id@ == ms.last().user_id@;
                assert(cur[i] == prev[i]);
            } else {
                assert(cur[prev.len() as int] == ms.last());
            }
        }
    }
}

/// The lines of a member list, one per member.
pub open spec fn member_lines_of(ms: Seq<MemberSummary>) -> Seq<Seq<char>> {
    Seq::new(ms.len(), |i: int| member_line(ms[i]))
}

/// The answer of `get-all-users`, given the members of every joined room one after another.
pub open spec fn all_users_view(members: Seq<MemberSummary>) -> ToolOutputView {
    let users = first_by_user(members);
    if users.len() == 0 {
        single_view("No users found in the client cache"@)
    } else {
        success_view(member_lines_of(users))
    }
}

fn contains_string(v: &Vec<String>, x: &String) -> (r: bool)
    ensures
        r == exists|k: int| 0 <= k < v@.len() && (#[trigger] v@[k])@ == x@,
{
    let mut j: usize = 0;
    while j < v.len()
        invariant
            j <= v@.len(),
            forall|k: int| 0 <= k < j ==> (#[trigger] v@[k])@ != x@,
        decreases v@.len() - j,
    {
        if v[j] == *x {
            return true;
        }
        j = j + 1;
    }
    false
}

/// The answer of `get-all-users`: each user once, at the place they first appear.
pub fn all_users_output(members: &Vec<MemberSummary>) -> (r: ToolOutput)
    ensures
        r@ == all_users_view(members@),
{
    let mut seen: Vec<String> = Vec::new();
    let mut texts: Vec<String> = Vec::new();
    let ghost mut kept: Seq<MemberSummary> = Seq::empty();
    let mut i: usize = 0;
    while i < members.len()
        invariant
            i <= members@.len(),
            kept == first_by_user(members@.subrange(0, i as int)),
            seen@.len() == kept.len(),
            forall|k: int| 0 <= k < kept.len() ==> (#[trigger] seen@[k])@ == kept[k].user_id@,
            texts_view(texts@) == member_lines_of(kept),
        decreases members@.len() - i,
    {
        let m = &members[i];
        assert(members@.subrange(0, i + 1).drop_last() =~= members@.subrange(0, i as int));
        let dup = contains_string(&seen, &m.user_id);
        if dup {
            proof {
                let k = choose|k: int| 0 <= k < seen@.len() && (#[trigger] seen@[k])@ == m.user_id@;
                assert(kept[k].user_id@ == m.user_id@);
            }
        } else {
            let ghost before = texts@;
            let line = member_text(m);
            texts.push(line);
            seen.push(m.user_id.clone());
            proof {
                lemma_texts_push(before, line);
                assert forall|k: int| 0 <= k < kept.len() implies kept[k].user_id@ != m.user_id@ by {
                    assert(seen@[k]@ == kept[k].user_id@);
                }
                kept = kept.push(*m);
                assert(member_lines_of(kept) =~= member_lines_of(kept.drop_last()).push(member_line(*m)));
            }
        }
        i = i + 1;
    }
    assert(members@.subrange(0, members@.len() as int) =~= members@);
    if texts.len() == 0 {
        return ToolOutput::single(owned("No users found in the client cache"));
    }
    ToolOutput::success(texts)
}

/// Unread counts of a joined room, with the name it is shown by.
pub struct RoomNotifications {
    pub room_id: String,
    pub name: String,
    pub notification_count: u64,
    pub highlight_count: u64,
}

/// The rooms a notification query covers: the one whose id is `filter`, or all of them.
pub open spec fn rooms_in_filter(rooms: Seq<RoomNotifications>, filter: Option<Seq<char>>) -> Seq<
    RoomNotifications,
>
    decreases rooms.len(),
{
    if rooms.len() == 0 {
        Seq::empty()
    } else {
        let prev = rooms_in_filter(rooms.drop_last(), filter);
        match filter {
            Some(f) => if rooms.last().room_id@ == f {
                prev.push(rooms.last())
            } else {
                prev
            },
            None => prev.push(rooms.last()),
        }
    }
}

/// The total of the unread counts of some rooms.
pub open spec fn total_unread(rooms: Seq<RoomNotifications>) -> nat
    decreases rooms.len(),
{
    if rooms.len() == 0 {
        0
    } else {
        total_unread(rooms.drop_last()) + rooms.last().notification_count as nat
    }
}

/// The total of the highlight counts of some rooms.
pub open spec fn total_highlights(rooms: Seq<RoomNotifications>) -> nat
    decreases rooms.len(),
{
    if rooms.len() == 0 {
        0
    } else {
        total_highlights(rooms.drop_last()) + rooms.last().highlight_count as nat
    }
}

/// The rooms shown in a notification answer: with a filter, every room it
/// covers; without, the rooms with something unread.
pub open spec fn rooms_shown(rooms: Seq<RoomNotifications>, filtered: bool) -> Seq<RoomNotifications>
    decreases rooms.len(),
{
    if rooms.len() == 0 {
        Seq::empty()
    } else {
        let prev = rooms_shown(rooms.drop_last(), filtered);
        let r = rooms.last();
        if r.notification_count > 0 || r.highlight_count > 0 || filtered {
            prev.push(r)
        } else {
            prev
        }
    }
}

/// The totals are sums: no rooms count nothing, one room counts its own
/// counts, and the totals of two lists of rooms together add up.
pub proof fn law_totals_are_sums(a: Seq<RoomNotifications>, b: Seq<RoomNotifications>, r: RoomNotifications)
    ensures
        total_unread(Seq::empty()) == 0,
        total_highlights(Seq::empty()) == 0,
        total_unread(seq![r]) == r.notification_count,
        total_highlights(seq![r]) == r.highlight_count,
        total_unread(a + b) == total_unread(a) + total_unread(b),
        total_highlights(a + b) == total_highlights(a) + total_highlights(b),
    decreases b.len(),
{
    assert(seq![r].drop_last() =~= Seq::<RoomNotifications>::empty());
    if b.len() > 0 {
        law_totals_are_sums(a, b.drop_last(), r);
        assert((a + b).drop_last() =~= a + b.drop_last());
        assert((a + b).last() == b.last());
    } else {
        assert(a + b =~= a);
    }
}

/// Without a filter every joined room is covered, and the totals equal the
/// sums over the rooms listed below the summary: a room left out of the list
/// has nothing unread and nothing highlighted.
pub proof fn law_totals_match_listed_rooms(rooms: Seq<RoomNotifications>)
    ensures
        rooms_in_filter(rooms, None) == rooms,
        total_unread(rooms_shown(rooms, false)) == total_unread(rooms),
        total_highlights(rooms_shown(rooms, false)) == total_highlights(rooms),
    decreases rooms.len(),
{
    if rooms.len() > 0 {
        law_totals_match_listed_rooms(rooms.drop_last());
        assert(rooms.drop_last().push(rooms.last()) =~= rooms);
        let prev = rooms_shown(rooms.drop_last(), false);
        let r = rooms.last();
        if r.notification_count > 0 || r.highlight_count > 0 {
            assert(rooms_shown(rooms, false).drop_last() =~= prev);
        }
    } else {
        assert(rooms_in_filter(rooms, None) =~= rooms);
    }
}

/// How a room's unread counts are shown.
pub open spec fn notification_line(r: RoomNotifications) -> Seq<char> {
    r.name@ + " ("@ + r.room_id@ + ")\nUnread: "@ + decimal(r.notification_count as nat) + " messages\nMentions: "@
        + decimal(r.highlight_count as nat)
}

/// The lines of some rooms' unread counts.
pub open spec fn notification_lines(rs: Seq<RoomNotifications>) -> Seq<Seq<char>> {
    Seq::new(rs.len(), |i: int| notification_line(rs[i]))
}

/// The summary line heading a notification answer without a filter.
pub open spec fn notification_summary(rooms: Seq<RoomNotifications>) -> Seq<char> {
    let shown = rooms_shown(rooms, false);
    "Notification Summary:\nTotal unread messages: "@ + decimal(total_unread(rooms))
        + "\nTotal mentions/highlights: "@ + decimal(total_highlights(rooms)) + "\nRooms with notifications: "@
        + decimal(shown.len())
}

/// The answer of `get-notification-counts`.
pub open spec fn notification_counts_view(rooms: Seq<RoomNotifications>, filter: Option<Seq<char>>) -> ToolOutputView {
    let covered = rooms_in_filter(rooms, filter);
    match filter {
        Some(f) => if covered.len() == 0 {
            error_view("Error: Room with ID "@ + f + " not found."@)
        } else {
            success_view(notification_lines(rooms_shown(covered, true)))
        },
        None => if rooms_shown(covered, false).len() == 0 {
            single_view("No unread notifications across all rooms"@)
        } else {
            success_view(
                seq![notification_summary(covered)] + notification_lines(rooms_shown(covered, false)),
            )
        },
    }
}

fn notification_text(r: &RoomNotifications) -> (s: String)
    ensures
        s@ == notification_line(*r),
{
    let mut s = r.name.clone();
    s.append(" (");
    s.append(r.room_id.as_str());
    s.append(")\nUnread: ");
    append_decimal(&mut s, r.notification_count);
    s.append(" messages\nMentions: ");
    append_decimal(&mut s, r.highlight_count);
    s
}

/// The answer of `get-notification-counts`, over the joined rooms, for the
/// room whose id is `filter` or for all of them. The totals must fit in 64 bits.
pub fn notification_counts_output(rooms: &Vec<RoomNotifications>, filter: &Option<String>) -> (r: ToolOutput)
    requires
        total_unread(rooms_in_filter(rooms@, opt_view(*filter))) <= u64::MAX,
        total_highlights(rooms_in_filter(rooms@, opt_view(*filter))) <= u64::MAX,
    ensures
        r@ == notification_counts_view(rooms@, opt_view(*filter)),
{
    let ghost f = opt_view(*filter);
    let ghost all = rooms_in_filter(rooms@, f);
    let filtered = filter.is_some();
    let mut covered_count: usize = 0;
    let mut total_u: u64 = 0;
    let mut total_h: u64 = 0;
    let mut texts: Vec<String> = Vec::new();
    let ghost mut covered: Seq<RoomNotifications> = Seq::empty();
    let mut i: usize = 0;
    while i < rooms.len()
        invariant
            i <= rooms@.len(),
            filtered == f is Some,
            f == opt_view(*filter),
            all == rooms_in_filter(rooms@, f),
            total_unread(all) <= u64::MAX,
            total_highlights(all) <= u64::MAX,
            covered == rooms_in_filter(rooms@.subrange(0, i as int), f),
            covered_count == covered.len(),
            covered_count <= i,
            total_u == total_unread(covered),
            total_h == total_highlights(covered),
            texts_view(texts@) == notification_lines(rooms_shown(covered, filtered)),
        decreases rooms@.len() - i,
    {
        let room = &rooms[i];
        let ghost next = rooms@.subrange(0, i + 1);
        assert(next.drop_last() =~= rooms@.subrange(0, i as int));
        assert(next.last() == *room);
        let in_filter = match filter {
            Some(fid) => room.room_id == *fid,
            None => true,
        };
        if in_filter {
            proof {
                assert(rooms_in_filter(next, f) == covered.push(*room));
                assert(covered.push(*room).drop_last() =~= covered);
                lemma_filter_prefix_totals(rooms@, f, i as int + 1);
            }
            total_u = total_u + room.notification_count;
            total_h = total_h + room.highlight_count;
            covered_count = covered_count + 1;
            let ghost old_covered = covered;
            proof {
                covered = covered.push(*room);
                assert(covered.drop_last() =~= old_covered);
            }
            if room.notification_count > 0 || room.highlight_count > 0 || filtered {
                let line = notification_text(room);
                let ghost before = texts@;
                texts.push(line);
                proof {
                    lemma_texts_push(before, line);
                    assert(rooms_shown(covered, filtered) == rooms_shown(old_covered, filtered).push(*room));
                    assert(notification_lines(rooms_shown(covered, filtered)) =~= notification_lines(
                        rooms_shown(old_covered, filtered),
                    ).push(notification_line(*room)));
                }
            } else {
                assert(rooms_shown(covered, filtered) == rooms_shown(old_covered, filtered));
            }
        } else {
            assert(rooms_in_filter(next, f) == covered);
        }
        i = i + 1;
    }
    assert(rooms@.subrange(0, rooms@.len() as int) =~= rooms@);
    match filter {
        Some(fid) => {
            if covered_count == 0 {
                let mut s = owned("Error: Room with ID ");
                s.append(fid.as_str());
                s.append(" not found.");
                return ToolOutput::error(s);
            }
            ToolOutput::success(texts)
        },
        None => {
            if texts.len() == 0 {
                return ToolOutput::single(owned("No unread notifications across all rooms"));
            }
            let mut head = owned("Notification Summary:\nTotal unread messages: ");
            append_decimal(&mut head, total_u);
            head.append("\nTotal mentions/highlights: ");
            append_decimal(&mut head, total_h);
            head.append("\nRooms with notifications: ");
            append_decimal(&mut head, texts.len() as u64);
            let mut all_texts: Vec<String> = Vec::new();
            all_texts.push(head);
            let ghost first = all_texts@;
            let ghost rest = texts@;
            all_texts.append(&mut texts);
            assert(texts_view(all_texts@) =~= seq![head@] + texts_view(rest));
            ToolOutput::success(all_texts)
        },
    }
}

proof fn lemma_filter_prefix_totals(rooms: Seq<RoomNotifications>, f: Option<Seq<char>>, n: int)
    requires
        0 <= n <= rooms.len(),
    ensures
        total_unread(rooms_in_filter(rooms.subrange(0, n), f)) <= total_unread(rooms_in_filter(rooms, f)),
        total_highlights(rooms_in_filter(rooms.subrange(0, n), f)) <= total_highlights(rooms_in_filter(rooms, f)),
    decreases rooms.len() - n,
{
    if n < rooms.len() {
        lemma_filter_prefix_totals(rooms, f, n + 1);
        let s1 = rooms.subrange(0, n + 1);
        assert(s1.drop_last() =~= rooms.subrange(0, n));
        assert(s1.last() == rooms[n]);
        let prev = rooms_in_filter(rooms.subrange(0, n), f);
        assert(prev.push(rooms[n]).drop_last() =~= prev);
    } else {
        assert(rooms.subrange(0, n) =~= rooms);
    }
}

/// A joined room as `get-direct-messages` sees it: its number of joined
/// members, its members when they were read (only for direct-message rooms,
/// and not when reading them failed), and its unread counts.
pub struct DmCandidate {
    pub room_id: String,
    pub joined_members: u64,
    pub members: Option<Vec<MemberSummary>>,
    pub notification_count: u64,
    pub highlight_count: u64,
}

/// The first member who is not `me`.
pub open spec fn first_other(ms: Seq<MemberSummary>, me: Seq<char>) -> Option<MemberSummary>
    decreases ms.len(),
{
    if ms.len() == 0 {
        None
    } else if ms[0].user_id@ != me {
        Some(ms[0])
    } else {
        first_other(ms.drop_first(), me)
    }
}

/// The line of a direct-message conversation with `other`.
pub open spec fn dm_line(room: DmCandidate, other: MemberSummary) -> Seq<char> {
    member_line(other) + "\nRoom ID: "@ + room.room_id@ + "\nUnread: "@ + decimal(room.notification_count as nat)
        + " messages\nMentions: "@ + decimal(room.highlight_count as nat)
}

/// The line a room contributes to `get-direct-messages`, if any: only rooms
/// with two joined members whose members were read and include someone other
/// than `me`, and, unless `include_empty`, that have something unread.
pub open spec fn dm_entry(room: DmCandidate, me: Seq<char>, include_empty: bool) -> Option<Seq<char>> {
    if !spec_is_direct_room(room.joined_members) {
        None
    } else {
        match room.members {
            None => None,
            Some(ms) => match first_other(ms@, me) {
                None => None,
                Some(other) => if !include_empty && room.notification_count == 0 && room.highlight_count
                    == 0 {
                    None
                } else {
                    Some(dm_line(room, other))
                },
            },
        }
    }
}

/// The lines of the direct-message conversations, in the order of the rooms.
pub open spec fn dm_lines(rooms: Seq<DmCandidate>, me: Seq<char>, include_empty: bool) -> Seq<Seq<char>>
    decreases rooms.len(),
{
    if rooms.len() == 0 {
        Seq::empty()
    } else {
        let prev = dm_lines(rooms.drop_last(), me, include_empty);
        match dm_entry(rooms.last(), me, include_empty) {
            Some(l) => prev.push(l),
            None => prev,
        }
    }
}

/// Whether any room has two joined members.
pub open spec fn has_direct_room(rooms: Seq<DmCandidate>) -> bool {
    exists|i: int| 0 <= i < rooms.len() && spec_is_direct_room((#[trigger] rooms[i]).joined_members)
}

/// The answer of `get-direct-messages`.
pub open spec fn direct_messages_view(
    rooms: Seq<DmCandidate>,
    me: Option<Seq<char>>,
    include_empty: Option<bool>,
) -> ToolOutputView {
    let inc = match include_empty {
        Some(b) => b,
        None => false,
    };
    let lines = dm_lines(rooms, or_default(me, Seq::<char>::empty()), inc);
    if !has_direct_room(rooms) {
        single_view("No direct message conversations found"@)
    } else if lines.len() == 0 {
        single_view(
            if inc {
                "No direct message conversations found"@
            } else {
                "No direct message conversations with recent activity found"@
            },
        )
    } else {
        success_view(
            seq![
                "Found "@ + decimal(lines.len()) + " direct message conversation"@ + if lines.len() == 1 {
                    Seq::<char>::empty()
                } else {
                    "s"@
                } + ":"@,
            ] + lines,
        )
    }
}

fn first_other_member<'a>(ms: &'a Vec<MemberSummary>, me: &str) -> (r: Option<&'a MemberSummary>)
    ensures
        r is Some == first_other(ms@, me@) is Some,
        r matches Some(m) ==> *m == first_other(ms@, me@)->0,
{
    let mut i: usize = 0;
    assert(ms@.subrange(0, ms@.len() as int) =~= ms@);
    while i < ms.len()
        invariant
            i <= ms@.len(),
            first_other(ms@, me@) == first_other(ms@.subrange(i as int, ms@.len() as int), me@),
        decreases ms@.len() - i,
    {
        assert(ms@.subrange(i as int, ms@.len() as int).drop_first() =~= ms@.subrange(i + 1, ms@.len() as int));
        if !crate::text::str_eq(ms[i].user_id.as_str(), me) {
            return Some(&ms[i]);
        }
        i = i + 1;
    }
    None
}

/// The answer of `get-direct-messages`, over the joined rooms.
pub fn direct_messages_output(rooms: &Vec<DmCandidate>, me: Option<String>, include_empty: Option<bool>) -> (r:
    ToolOutput)
    ensures
        r@ == direct_messages_view(rooms@, opt_view(me), include_empty),
{
    let inc = match include_empty {
        Some(b) => b,
        None => false,
    };
    let my_id = match me {
        Some(u) => u,
        None => String::new(),
    };
    let ghost me_v = my_id@;
    let mut any_direct = false;
    let mut lines: Vec<String> = Vec::new();
    let mut i: usize = 0;
    while i < rooms.len()
        invariant
            i <= rooms@.len(),
            me_v == my_id@,
            any_direct == exists|k: int| 0 <= k < i && spec_is_direct_room((#[trigger] rooms@[k]).joined_members),
            texts_view(lines@) == dm_lines(rooms@.subrange(0, i as int), me_v, inc),
        decreases rooms@.len() - i,
    {
        let room = &rooms[i];
        let ghost next = rooms@.subrange(0, i + 1);
        assert(next.drop_last() =~= rooms@.subrange(0, i as int));
        assert(next.last() == *room);
        if is_direct_room(room.joined_members) {
            any_direct = true;
            match &room.members {
                None => {},
                Some(ms) => match first_other_member(ms, my_id.as_str()) {
                    None => {},
                    Some(other) => {
                        if inc || room.notification_count != 0 || room.highlight_count != 0 {
                            let mut line = member_text(other);
                            line.append("\nRoom ID: ");
                            line.append(room.room_id.as_str());
                            line.append("\nUnread: ");
                            append_decimal(&mut line, room.notification_count);
                            line.append(" messages\nMentions: ");
                            append_decimal(&mut line, room.highlight_count);
                            let ghost before = lines@;
                            lines.push(line);
                            proof {
                                lemma_texts_push(before, line);
                            }
                        }
                    },
                },
            }
        }
        i = i + 1;
    }
    assert(rooms@.subrange(0, rooms@.len() as int) =~= rooms@);
    if !any_direct {
        return ToolOutput::single(owned("No direct message conversations found"));
    }
    if lines.len() == 0 {
        if inc {
            return ToolOutput::single(owned("No direct message conversations found"));
        } else {
            return ToolOutput::single(owned("No direct message conversations with recent activity found"));
        }
    }
    let mut head = owned("Found ");
    append_decimal(&mut head, lines.len() as u64);
    head.append(" direct message conversation");
    let plural = if lines.len() == 1 {
        String::new()
    } else {
        owned("s")
    };
    head.append(plural.as_str());
    head.append(":");
    let mut texts: Vec<String> = Vec::new();
    texts.push(head);
    let ghost rest = lines@;
    texts.append(&mut lines);
    assert(texts_view(texts@) =~= seq![head@] + texts_view(rest));
    ToolOutput::success(texts)
}

} // verus!
