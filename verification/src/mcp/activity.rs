//! Ranking the senders of a room's messages by how many messages each wrote.

use vstd::prelude::*;

use crate::mcp::messages::{records_view, MessageRecord, MessageView};

verus! {

/// The senders of a list of messages, in order.
pub open spec fn senders_of(ms: Seq<MessageView>) -> Seq<Seq<char>> {
    ms.map_values(|m: MessageView| m.sender)
}

/// How many times `x` occurs in `s`.
pub open spec fn count_in(s: Seq<Seq<char>>, x: Seq<char>) -> nat
    decreases s.len(),
{
    if s.len() == 0 {
        0
    } else {
        count_in(s.drop_last(), x) + if s.last() == x {
            1nat
        } else {
            0nat
        }
    }
}

/// The distinct elements of `s`, each at the place it first occurs.
pub open spec fn distinct_in_order(s: Seq<Seq<char>>) -> Seq<Seq<char>>
    decreases s.len(),
{
    if s.len() == 0 {
        Seq::empty()
    } else {
        let p = distinct_in_order(s.drop_last());
        if p.contains(s.last()) {
            p
        } else {
            p.push(s.last())
        }
    }
}

/// Whether `a` occurs before `b` in `d`.
pub open spec fn appears_before(d: Seq<Seq<char>>, a: Seq<char>, b: Seq<char>) -> bool {
    exists|i: int, j: int| 0 <= i < j < d.len() && d[i] == a && d[j] == b
}

/// Whether sender `a` ranks above sender `b` among `senders`: more messages,
/// or as many and an earlier first message in the list.
pub open spec fn ranks_above(senders: Seq<Seq<char>>, a: Seq<char>, b: Seq<char>) -> bool {
    count_in(senders, a) > count_in(senders, b) || (count_in(senders, a) == count_in(senders, b)
        && appears_before(distinct_in_order(senders), a, b))
}

/// A ranking as mathematical values: (sender, number of messages) pairs.
pub open spec fn activity_view(r: Seq<(String, usize)>) -> Seq<(Seq<char>, nat)> {
    r.map_values(|p: (String, usize)| (p.0@, p.1 as nat))
}

proof fn lemma_count_le_len(s: Seq<Seq<char>>, x: Seq<char>)
    ensures
        count_in(s, x) <= s.len(),
    decreases s.len(),
{
    if s.len() > 0 {
        lemma_count_le_len(s.drop_last(), x);
    }
}

proof fn lemma_distinct_props(s: Seq<Seq<char>>)
    ensures
        distinct_in_order(s).no_duplicates(),
        forall|x: Seq<char>| distinct_in_order(s).contains(x) <==> s.contains(x),
    decreases s.len(),
{
    if s.len() > 0 {
        let q = s.drop_last();
        lemma_distinct_props(q);
        let p = distinct_in_order(q);
        assert forall|x: Seq<char>| distinct_in_order(s).contains(x) <==> s.contains(x) by {
            if s.contains(x) {
                let i = choose|i: int| 0 <= i < s.len() && s[i] == x;
                if i < s.len() - 1 {
                    assert(q[i] == x);
                    assert(q.contains(x));
                }
            }
            if q.contains(x) {
                let i = choose|i: int| 0 <= i < q.len() && q[i] == x;
                assert(s[i] == x);
            }
            if !p.contains(s.last()) {
                if p.push(s.last()).contains(x) {
                    let i = choose|i: int| 0 <= i < p.push(s.last()).len() && p.push(s.last())[i] == x;
                    if i < p.len() {
                        assert(p[i] == x);
                    }
                }
                if p.contains(x) {
                    let i = choose|i: int| 0 <= i < p.len() && p[i] == x;
                    assert(p.push(s.last())[i] == x);
                }
                assert(p.push(s.last())[p.len() as int] == s.last());
            }
            assert(s[s.len() - 1] == s.last());
        }
    }
}

fn find_user(counts: &Vec<(String, usize)>, s: &String) -> (r: Option<usize>)
    ensures
        r matches Some(j) ==> j < counts@.len() && counts@[j as int].0@ == s@,
        r is None ==> forall|k: int| 0 <= k < counts@.len() ==> (#[trigger] counts@[k]).0@ != s@,
{
    let mut j: usize = 0;
    while j < counts.len()
        invariant
            j <= counts@.len(),
            forall|k: int| 0 <= k < j ==> (#[trigger] counts@[k]).0@ != s@,
        decreases counts@.len() - j,
    {
        if counts[j].0 == *s {
            return Some(j);
        }
        j = j + 1;
    }
    None
}

/// Counts how many messages each sender wrote; the senders come in the order of their first message.
fn count_senders(records: &Vec<MessageRecord>) -> (counts: Vec<(String, usize)>)
    ensures
        counts@.len() == distinct_in_order(senders_of(records_view(records@))).len(),
        forall|k: int|
            0 <= k < counts@.len() ==> (#[trigger] counts@[k]).0@ == distinct_in_order(
                senders_of(records_view(records@)),
            )[k] && counts@[k].1 == count_in(senders_of(records_view(records@)), counts@[k].0@),
{
    let ghost all = senders_of(records_view(records@));
    let mut counts: Vec<(String, usize)> = Vec::new();
    let mut i: usize = 0;
    while i < records.len()
        invariant
            i <= records@.len(),
            all == senders_of(records_view(records@)),
            counts@.len() == distinct_in_order(all.subrange(0, i as int)).len(),
            forall|k: int|
                0 <= k < counts@.len() ==> (#[trigger] counts@[k]).0@ == distinct_in_order(
                    all.subrange(0, i as int),
                )[k] && counts@[k].1 == count_in(all.subrange(0, i as int), counts@[k].0@) && counts@[k].1
                    <= i,
        decreases records@.len() - i,
    {
        let ghost pre = all.subrange(0, i as int);
        let ghost next = all.subrange(0, i + 1);
        assert(next.drop_last() =~= pre);
        assert(next.last() == records@[i as int].sender@);
        proof {
            lemma_distinct_props(pre);
        }
        let s = &records[i].sender;
        let found = find_user(&counts, s);
        let ghost old_counts = counts@;
        match found {
            Some(j) => {
                assert(counts@[j as int].0@ == s@);
                let c = counts[j].1;
                let name = counts[j].0.clone();
                counts.set(j, (name, c + 1));
                proof {
                    let dp = distinct_in_order(pre);
                    assert(dp[j as int] == s@);
                    assert(dp.contains(s@));
                    assert(distinct_in_order(next) == dp);
                    assert forall|k: int| 0 <= k < counts@.len() implies (#[trigger] counts@[k]).0@
                        == distinct_in_order(next)[k] && counts@[k].1 == count_in(next, counts@[k].0@)
                        && counts@[k].1 <= i + 1 by {
                        if k != j {
                            assert(counts@[k] == old_counts[k]);
                            assert(dp[k] != dp[j as int]);
                        }
                    }
                }
            },
            None => {
                let name = s.clone();
                counts.push((name, 1));
                proof {
                    let dp = distinct_in_order(pre);
                    assert(!dp.contains(s@)) by {
                        if dp.contains(s@) {
                            let k = choose|k: int| 0 <= k < dp.len() && dp[k] == s@;
                            assert(old_counts[k].0@ == s@);
                        }
                    }
                    assert(distinct_in_order(next) == dp.push(s@));
                    assert(count_in(pre, s@) == 0) by {
                        if count_in(pre, s@) > 0 {
                            lemma_count_positive_contains(pre, s@);
                        }
                    }
                    assert forall|k: int| 0 <= k < counts@.len() implies (#[trigger] counts@[k]).0@
                        == distinct_in_order(next)[k] && counts@[k].1 == count_in(next, counts@[k].0@)
                        && counts@[k].1 <= i + 1 by {
                        if k < old_counts.len() {
                            assert(counts@[k] == old_counts[k]);
                            assert(dp[k] != s@);
                        }
                    }
                }
            },
        }
        i = i + 1;
    }
    assert(all.subrange(0, records@.len() as int) =~= all);
    counts
}

proof fn lemma_count_positive_contains(s: Seq<Seq<char>>, x: Seq<char>)
    requires
        count_in(s, x) > 0,
    ensures
        s.contains(x),
    decreases s.len(),
{
    if s.last() == x {
        assert(s[s.len() - 1] == x);
    } else {
        lemma_count_positive_contains(s.drop_last(), x);
        let i = choose|i: int| 0 <= i < s.drop_last().len() && s.drop_last()[i] == x;
        assert(s[i] == x);
    }
}

/// Whether `r` lists the `limit` senders of `senders` that rank highest, from
/// the highest down, each with the number of messages they sent. Exactly one
/// list meets this: `ranks_above` orders the distinct senders totally.
pub open spec fn is_ranking(senders: Seq<Seq<char>>, limit: int, r: Seq<(Seq<char>, nat)>) -> bool {
    let d = distinct_in_order(senders);
    &&& r.len() == if limit < d.len() {
        limit
    } else {
        d.len() as int
    }
    &&& forall|i: int| 0 <= i < r.len() ==> d.contains((#[trigger] r[i]).0) && r[i].1 == count_in(senders, r[i].0)
    &&& forall|i: int, j: int| 0 <= i < j < r.len() ==> ranks_above(senders, (#[trigger] r[i]).0, (#[trigger] r[j]).0)
    &&& forall|x: Seq<char>|
        d.contains(x) && (forall|i: int| 0 <= i < r.len() ==> (#[trigger] r[i]).0 != x) ==> forall|i: int|
            0 <= i < r.len() ==> ranks_above(senders, (#[trigger] r[i]).0, x)
}

/// A ranking lists each sender at most once, with message counts that never
/// go up from one line to the next.
pub proof fn law_ranking_descends(senders: Seq<Seq<char>>, limit: int, r: Seq<(Seq<char>, nat)>)
    requires
        is_ranking(senders, limit, r),
    ensures
        forall|i: int, j: int| 0 <= i < j < r.len() ==> (#[trigger] r[i]).1 >= (#[trigger] r[j]).1,
        forall|i: int, j: int| 0 <= i < j < r.len() ==> (#[trigger] r[i]).0 != (#[trigger] r[j]).0,
{
    lemma_distinct_props(senders);
    let d = distinct_in_order(senders);
    assert forall|i: int, j: int| 0 <= i < j < r.len() implies (#[trigger] r[i]).0 != (#[trigger] r[j]).0 by {
        assert(ranks_above(senders, r[i].0, r[j].0));
        if r[i].0 == r[j].0 {
            assert(appears_before(d, r[i].0, r[j].0));
            let (a, b) = choose|a: int, b: int| 0 <= a < b < d.len() && d[a] == r[i].0 && d[b] == r[j].0;
            assert(d[a] == d[b]);
        }
    }
    assert forall|i: int, j: int| 0 <= i < j < r.len() implies (#[trigger] r[i]).1 >= (#[trigger] r[j]).1 by {
        assert(ranks_above(senders, r[i].0, r[j].0));
    }
}

/// The `limit` most active senders of `records`, most active first; among
/// senders with as many messages, the one whose first message comes earlier
/// in the list goes first.
pub fn rank_active_users(records: &Vec<MessageRecord>, limit: usize) -> (r: Vec<(String, usize)>)
    ensures
        is_ranking(senders_of(records_view(records@)), limit as int, activity_view(r@)),
{
    let ghost senders = senders_of(records_view(records@));
    let ghost d = distinct_in_order(senders);
    proof {
        lemma_distinct_props(senders);
    }
    let counts = count_senders(records);
    let n = counts.len();
    let mut sorted: Vec<(String, usize)> = Vec::new();
    let ghost mut perm: Seq<int> = Seq::empty();
    let ghost mut pos: Seq<int> = Seq::empty();
    let mut j: usize = 0;
    while j < n
        invariant
            n == counts@.len(),
            counts@.len() == d.len(),
            forall|k: int|
                0 <= k < counts@.len() ==> (#[trigger] counts@[k]).0@ == d[k] && counts@[k].1 == count_in(
                    senders,
                    counts@[k].0@,
                ),
            j <= n,
            sorted@.len() == j,
            perm.len() == j,
            pos.len() == j,
            forall|k: int| 0 <= k < j ==> 0 <= #[trigger] perm[k] < j && pos[perm[k]] == k,
            forall|m: int| 0 <= m < j ==> 0 <= #[trigger] pos[m] < j && perm[pos[m]] == m,
            forall|k: int|
                0 <= k < j ==> (#[trigger] sorted@[k]).0@ == counts@[perm[k]].0@ && sorted@[k].1
                    == counts@[perm[k]].1,
            forall|k: int, l: int|
                0 <= k < l < j ==> (#[trigger] sorted@[k]).1 > (#[trigger] sorted@[l]).1 || (sorted@[k].1
                    == sorted@[l].1 && perm[k] < perm[l]),
        decreases n - j,
    {
        let c = counts[j].1;
        let mut p: usize = 0;
        while p < sorted.len() && sorted[p].1 >= c
            invariant
                p <= sorted@.len(),
                forall|k: int| 0 <= k < p ==> (#[trigger] sorted@[k]).1 >= c,
            decreases sorted@.len() - p,
        {
            p = p + 1;
        }
        let ghost old_sorted = sorted@;
        let ghost old_perm = perm;
        let ghost old_pos = pos;
        assert forall|k: int| p <= k < j implies (#[trigger] old_sorted[k]).1 < c by {
            if k > p {
                assert(old_sorted[p as int].1 >= old_sorted[k].1);
            }
        }
        let entry = (counts[j].0.clone(), c);
        sorted.insert(p, entry);
        proof {
            old_sorted.insert_ensures(p as int, entry);
            old_perm.insert_ensures(p as int, j as int);
            perm = old_perm.insert(p as int, j as int);
            pos = Seq::new(
                (j + 1) as nat,
                |m: int|
                    if m == j {
                        p as int
                    } else if old_pos[m] >= p {
                        old_pos[m] + 1
                    } else {
                        old_pos[m]
                    },
            );
            assert forall|k: int| 0 <= k < j + 1 implies 0 <= #[trigger] perm[k] < j + 1 && pos[perm[k]]
                == k by {
                if k < p {
                    assert(perm[k] == old_perm[k]);
                } else if k > p {
                    assert(perm[k] == old_perm[k - 1]);
                }
            }
            assert forall|m: int| 0 <= m < j + 1 implies 0 <= #[trigger] pos[m] < j + 1 && perm[pos[m]]
                == m by {
                if m < j {
                    if old_pos[m] >= p {
                        assert(perm[old_pos[m] + 1] == old_perm[old_pos[m]]);
                    } else {
                        assert(perm[old_pos[m]] == old_perm[old_pos[m]]);
                    }
                }
            }
            assert forall|k: int| 0 <= k < j + 1 implies (#[trigger] sorted@[k]).0@ == counts@[perm[k]].0@
                && sorted@[k].1 == counts@[perm[k]].1 by {
                if k < p {
                    assert(sorted@[k] == old_sorted[k]);
                } else if k > p {
                    assert(sorted@[k] == old_sorted[k - 1]);
                }
            }
            assert forall|k: int, l: int| 0 <= k < l < j + 1 implies (#[trigger] sorted@[k]).1 > (
            #[trigger] sorted@[l]).1 || (sorted@[k].1 == sorted@[l].1 && perm[k] < perm[l]) by {
                if l < p {
                    assert(sorted@[k] == old_sorted[k] && sorted@[l] == old_sorted[l]);
                } else if l == p {
                    assert(sorted@[k] == old_sorted[k]);
                    assert(old_sorted[k].1 >= c);
                } else if k > p {
                    assert(sorted@[k] == old_sorted[k - 1] && sorted@[l] == old_sorted[l - 1]);
                } else if k == p {
                    assert(sorted@[l] == old_sorted[l - 1]);
                    assert(old_sorted[l - 1].1 < c);
                } else {
                    assert(sorted@[k] == old_sorted[k] && sorted@[l] == old_sorted[l - 1]);
                }
            }
        }
        j = j + 1;
    }
    let ghost full = sorted@;
    sorted.truncate(limit);
    proof {
        let r = sorted@;
        assert forall|i: int| 0 <= i < r.len() implies d.contains((#[trigger] r[i]).0@) && r[i].1
            == count_in(senders, r[i].0@) by {
            assert(r[i] == full[i]);
            assert(d[perm[i]] == r[i].0@);
        }
        assert forall|i: int, k: int| 0 <= i < k < r.len() implies ranks_above(
            senders,
            (#[trigger] r[i]).0@,
            (#[trigger] r[k]).0@,
        ) by {
            assert(r[i] == full[i] && r[k] == full[k]);
            if full[i].1 == full[k].1 {
                assert(d[perm[i]] == r[i].0@ && d[perm[k]] == r[k].0@);
                assert(appears_before(d, r[i].0@, r[k].0@));
            }
        }
        assert forall|x: Seq<char>|
            d.contains(x) && (forall|i: int| 0 <= i < r.len() ==> (#[trigger] r[i]).0@ != x) implies forall|
                i: int,
            | 0 <= i < r.len() ==> ranks_above(senders, (#[trigger] r[i]).0@, x) by {
            let m = choose|m: int| 0 <= m < d.len() && d[m] == x;
            let q = pos[m];
            assert(full[q].0@ == x);
            if q < r.len() {
                assert(r[q] == full[q]);
                assert(r[q].0@ == x);
            }
            assert forall|i: int| 0 <= i < r.len() implies ranks_above(senders, (#[trigger] r[i]).0@, x) by {
                assert(r[i] == full[i]);
                assert(i < q);
                if full[i].1 == full[q].1 {
                    assert(d[perm[i]] == r[i].0@);
                    assert(appears_before(d, r[i].0@, x));
                }
            }
        }
        let av = activity_view(r);
        assert forall|x: Seq<char>|
            d.contains(x) && (forall|i: int| 0 <= i < av.len() ==> (#[trigger] av[i]).0 != x) implies forall|
                i: int,
            | 0 <= i < av.len() ==> ranks_above(senders, (#[trigger] av[i]).0, x) by {
            assert forall|i: int| 0 <= i < r.len() implies (#[trigger] r[i]).0@ != x by {
                assert(av[i].0 == r[i].0@);
            }
        }
        assert(is_ranking(senders, limit as int, av));
    }
    sorted
}

} // verus!
