//! A time-to-live cache of clients, keyed by user id and homeserver URL.
//!
//! Each entry remembers the clock reading at which it was stored; an entry
//! is handed out only while less than fifteen minutes have passed since then.
//! Expired entries stay until `remove`, `cleanup` or `shutdown_all` drops them.

use std::time::Instant;
use vstd::prelude::*;

use crate::text::{owned, str_eq};

verus! {

/// `std::time::Instant`, a reading of the monotonic clock, carried as it is.
#[verifier::external_type_specification]
#[verifier::external_body]
pub struct ExInstant(Instant);

/// How long a cached client stays usable: fifteen minutes, in nanoseconds.
pub const CLIENT_TTL_NANOS: u128 = 900_000_000_000;

/// How often a periodic sweep of expired entries should run: five minutes, in milliseconds.
pub const CLEANUP_INTERVAL_MILLIS: u64 = 300_000;

/// A cached client and the clock reading (nanoseconds since the cache was made) at which it was stored.
pub struct CachedClient<C> {
    pub client: C,
    pub created_at: u128,
}

struct CacheEntry<C> {
    user_id: String,
    homeserver_url: String,
    slot: CachedClient<C>,
}

/// The (user id, homeserver URL) pair an entry is stored under.
spec fn key_of<C>(e: CacheEntry<C>) -> (Seq<char>, Seq<char>) {
    (e.user_id@, e.homeserver_url@)
}

/// A cache of clients keyed by the pair (user id, homeserver URL).
pub struct ClientCache<C> {
    entries: Vec<CacheEntry<C>>,
    epoch: Instant,
}

/// Time elapsed from `created_at` to `now`; a reading earlier than the start counts as no time at all.
pub open spec fn elapsed(created_at: u128, now: u128) -> int {
    if now >= created_at {
        now - created_at
    } else {
        0
    }
}

/// Whether an entry stored at `created_at` may still be handed out at `now`.
pub open spec fn is_fresh(created_at: u128, now: u128) -> bool {
    elapsed(created_at, now) < CLIENT_TTL_NANOS
}

/// What a lookup of `key` at time `now` gives in a cache whose contents are `m`.
pub open spec fn lookup<C>(m: Map<(Seq<char>, Seq<char>), CachedClient<C>>, key: (Seq<char>, Seq<char>), now: u128) -> Option<C> {
    if m.contains_key(key) && is_fresh(m[key].created_at, now) {
        Some(m[key].client)
    } else {
        None
    }
}

/// The contents of `m` that are still fresh at `now`.
pub open spec fn fresh_part<C>(m: Map<(Seq<char>, Seq<char>), CachedClient<C>>, now: u128) -> Map<
    (Seq<char>, Seq<char>),
    CachedClient<C>,
> {
    Map::new(|k: (Seq<char>, Seq<char>)| m.contains_key(k) && is_fresh(m[k].created_at, now), |k: (Seq<char>, Seq<char>)| m[k])
}

/// A client stored for a (user id, homeserver URL) pair is handed out for that key while it is fresh,
/// and not once it has expired.
pub proof fn law_lookup_after_store<C>(
    m: Map<(Seq<char>, Seq<char>), CachedClient<C>>,
    key: (Seq<char>, Seq<char>),
    client: C,
    stored_at: u128,
    now: u128,
)
    ensures
        lookup(m.insert(key, CachedClient { client, created_at: stored_at }), key, now) == (if is_fresh(
            stored_at,
            now,
        ) {
            Some(client)
        } else {
            None
        }),
{
}

/// Storing for one pair leaves what every other pair gives unchanged, even
/// pairs whose parts joined with a colon read the same.
pub proof fn law_store_leaves_other_keys<C>(
    m: Map<(Seq<char>, Seq<char>), CachedClient<C>>,
    key: (Seq<char>, Seq<char>),
    entry: CachedClient<C>,
    other: (Seq<char>, Seq<char>),
    now: u128,
)
    requires
        other != key,
    ensures
        lookup(m.insert(key, entry), other, now) == lookup(m, other, now),
{
}

/// After a removal the key gives nothing; every other key gives what it gave.
pub proof fn law_remove<C>(
    m: Map<(Seq<char>, Seq<char>), CachedClient<C>>,
    key: (Seq<char>, Seq<char>),
    other: (Seq<char>, Seq<char>),
    now: u128,
)
    ensures
        lookup(m.remove(key), key, now) is None,
        other != key ==> lookup(m.remove(key), other, now) == lookup(m, other, now),
{
}

/// A sweep at time `now` changes no lookup made at `now`, and leaves only fresh entries.
pub proof fn law_cleanup<C>(
    m: Map<(Seq<char>, Seq<char>), CachedClient<C>>,
    key: (Seq<char>, Seq<char>),
    now: u128,
)
    ensures
        lookup(fresh_part(m, now), key, now) == lookup(m, key, now),
        fresh_part(m, now).contains_key(key) ==> is_fresh(fresh_part(m, now)[key].created_at, now),
        fresh_part(m, now).dom().subset_of(m.dom()),
{
}

/// An emptied cache gives nothing for any key.
pub proof fn law_empty_gives_nothing<C>(key: (Seq<char>, Seq<char>), now: u128)
    ensures
        lookup(Map::<(Seq<char>, Seq<char>), CachedClient<C>>::empty(), key, now) is None,
{
}

spec fn has_key<C>(es: Seq<CacheEntry<C>>, k: (Seq<char>, Seq<char>)) -> bool {
    exists|i: int| 0 <= i < es.len() && (#[trigger] key_of(es[i])) == k
}

spec fn keys_distinct<C>(es: Seq<CacheEntry<C>>) -> bool {
    forall|i: int, j: int|
        0 <= i < es.len() && 0 <= j < es.len() && i != j ==> (#[trigger] key_of(es[i])) != (#[trigger] key_of(es[j]))
}

spec fn entries_map<C>(es: Seq<CacheEntry<C>>) -> Map<(Seq<char>, Seq<char>), CachedClient<C>> {
    Map::new(
        |k: (Seq<char>, Seq<char>)| has_key(es, k),
        |k: (Seq<char>, Seq<char>)| es[choose|i: int| 0 <= i < es.len() && (#[trigger] key_of(es[i])) == k].slot,
    )
}

proof fn lemma_entries_map_at<C>(es: Seq<CacheEntry<C>>, i: int)
    requires
        keys_distinct(es),
        0 <= i < es.len(),
    ensures
        entries_map(es).contains_key(key_of(es[i])),
        entries_map(es)[key_of(es[i])] == es[i].slot,
{
    let k = key_of(es[i]);
    assert(has_key(es, k));
    let j = choose|j: int| 0 <= j < es.len() && (#[trigger] key_of(es[j])) == k;
    assert(j == i);
}

proof fn lemma_entries_map_absent<C>(es: Seq<CacheEntry<C>>, k: (Seq<char>, Seq<char>))
    requires
        forall|i: int| 0 <= i < es.len() ==> (#[trigger] key_of(es[i])) != k,
    ensures
        !entries_map(es).contains_key(k),
{
}

impl<C> View for ClientCache<C> {
    type V = Map<(Seq<char>, Seq<char>), CachedClient<C>>;

    closed spec fn view(&self) -> Map<(Seq<char>, Seq<char>), CachedClient<C>> {
        entries_map(self.entries@)
    }
}

/// `Instant::now()`: the current reading of the monotonic clock. Nothing is
/// promised of it.
#[verifier::external_body]
fn monotonic_now() -> Instant {
    Instant::now()
}

/// Nanoseconds elapsed on the monotonic clock since `epoch` (`Instant::elapsed`).
/// Nothing is promised of the value: it is a clock reading.
#[verifier::external_body]
fn nanos_since(epoch: &Instant) -> u128 {
    epoch.elapsed().as_nanos()
}

impl<C> ClientCache<C> {
    #[verifier::type_invariant]
    spec fn inv(self) -> bool {
        keys_distinct(self.entries@)
    }

    /// An empty cache whose clock starts now.
    pub fn new() -> (r: Self)
        ensures
            r@ == Map::<(Seq<char>, Seq<char>), CachedClient<C>>::empty(),
    {
        let r = ClientCache { entries: Vec::new(), epoch: monotonic_now() };
        assert(r@ =~= Map::<(Seq<char>, Seq<char>), CachedClient<C>>::empty());
        r
    }

    /// The current reading of the cache's clock, in nanoseconds since it was made.
    pub fn now(&self) -> u128 {
        nanos_since(&self.epoch)
    }

    fn find(&self, user_id: &str, homeserver_url: &str) -> (r: Option<usize>)
        ensures
            r matches Some(i) ==> i < self.entries@.len() && key_of(self.entries@[i as int]) == (
                user_id@,
                homeserver_url@,
            ),
            r is None ==> forall|i: int|
                0 <= i < self.entries@.len() ==> (#[trigger] key_of(self.entries@[i])) != (
                    user_id@,
                    homeserver_url@,
                ),
    {
        let mut i: usize = 0;
        while i < self.entries.len()
            invariant
                i <= self.entries@.len(),
                forall|j: int|
                    0 <= j < i ==> (#[trigger] key_of(self.entries@[j])) != (user_id@, homeserver_url@),
            decreases self.entries@.len() - i,
        {
            if str_eq(self.entries[i].user_id.as_str(), user_id) && str_eq(
                self.entries[i].homeserver_url.as_str(),
                homeserver_url,
            ) {
                return Some(i);
            }
            i = i + 1;
        }
        None
    }

    /// The client stored for `user_id` on `homeserver_url`, if there is one that is fresh at `now`.
    pub fn get_at(&self, user_id: &str, homeserver_url: &str, now: u128) -> (r: Option<&C>)
        ensures
            r is Some == lookup(self@, (user_id@, homeserver_url@), now) is Some,
            r matches Some(c) ==> *c == lookup(self@, (user_id@, homeserver_url@), now)->0,
    {
        proof {
            use_type_invariant(self);
        }
        match self.find(user_id, homeserver_url) {
            Some(i) => {
                proof {
                    lemma_entries_map_at(self.entries@, i as int);
                }
                let slot = &self.entries[i].slot;
                if slot.created_at > now || now - slot.created_at < CLIENT_TTL_NANOS {
                    Some(&slot.client)
                } else {
                    None
                }
            },
            None => {
                proof {
                    lemma_entries_map_absent(self.entries@, (user_id@, homeserver_url@));
                }
                None
            },
        }
    }

    /// The client stored for `user_id` on `homeserver_url`, if it is still fresh now.
    /// Whatever the clock reads, a client handed out is the one stored under that key.
    pub fn get(&self, user_id: &str, homeserver_url: &str) -> (r: Option<&C>)
        ensures
            exists|t: u128|
                {
                    let found = #[trigger] lookup(self@, (user_id@, homeserver_url@), t);
                    &&& r is Some == found is Some
                    &&& r matches Some(c) ==> *c == found->0
                },
    {
        let now = self.now();
        let r = self.get_at(user_id, homeserver_url, now);
        assert({
            let found = lookup(self@, (user_id@, homeserver_url@), now);
            &&& r is Some == found is Some
            &&& r matches Some(c) ==> *c == found->0
        });
        r
    }

    /// Stores `client` for `user_id` on `homeserver_url`, stamped with time `now`,
    /// replacing whatever was stored under that key.
    pub fn set_at(&mut self, user_id: &str, homeserver_url: &str, client: C, now: u128)
        ensures
            final(self)@ == old(self)@.insert(
                (user_id@, homeserver_url@),
                CachedClient { client, created_at: now },
            ),
    {
        proof {
            use_type_invariant(&*self);
        }
        let ghost k = (user_id@, homeserver_url@);
        let slot = CachedClient { client, created_at: now };
        let found = self.find(user_id, homeserver_url);
        let mut entries: Vec<CacheEntry<C>> = Vec::new();
        std::mem::swap(&mut entries, &mut self.entries);
        let ghost old_es = entries@;
        match found {
            Some(i) => {
                let entry = CacheEntry { user_id: owned(user_id), homeserver_url: owned(homeserver_url), slot };
                entries.set(i, entry);
                proof {
                    let es = entries@;
                    assert(keys_distinct(es));
                    assert forall|kk: (Seq<char>, Seq<char>)| #[trigger]
                        entries_map(es).contains_key(kk) == entries_map(old_es).insert(k, slot).contains_key(kk) by {
                        if has_key(old_es, kk) && kk != k {
                            let j = choose|j: int| 0 <= j < old_es.len() && (#[trigger] key_of(old_es[j])) == kk;
                            assert(key_of(es[j]) == kk);
                        }
                        if kk == k {
                            assert(key_of(es[i as int]) == kk);
                        }
                    }
                    assert forall|kk: (Seq<char>, Seq<char>)| #[trigger] entries_map(es).contains_key(kk) implies
                        entries_map(es)[kk] == entries_map(old_es).insert(k, slot)[kk] by {
                        let j = choose|j: int| 0 <= j < es.len() && (#[trigger] key_of(es[j])) == kk;
                        lemma_entries_map_at(es, j);
                        if j != i {
                            lemma_entries_map_at(old_es, j);
                        }
                    }
                    assert(entries_map(es) =~= entries_map(old_es).insert(k, slot));
                }
            },
            None => {
                let entry = CacheEntry { user_id: owned(user_id), homeserver_url: owned(homeserver_url), slot };
                entries.push(entry);
                proof {
                    let es = entries@;
                    assert(keys_distinct(es));
                    assert forall|kk: (Seq<char>, Seq<char>)| #[trigger]
                        entries_map(es).contains_key(kk) == entries_map(old_es).insert(k, slot).contains_key(kk) by {
                        if has_key(old_es, kk) {
                            let j = choose|j: int| 0 <= j < old_es.len() && (#[trigger] key_of(old_es[j])) == kk;
                            assert(key_of(es[j]) == kk);
                        }
                        if kk == k {
                            assert(key_of(es[old_es.len() as int]) == kk);
                        }
                    }
                    assert forall|kk: (Seq<char>, Seq<char>)| #[trigger] entries_map(es).contains_key(kk) implies
                        entries_map(es)[kk] == entries_map(old_es).insert(k, slot)[kk] by {
                        let j = choose|j: int| 0 <= j < es.len() && (#[trigger] key_of(es[j])) == kk;
                        lemma_entries_map_at(es, j);
                        if j < old_es.len() {
                            lemma_entries_map_at(old_es, j);
                        }
                    }
                    assert(entries_map(es) =~= entries_map(old_es).insert(k, slot));
                }
            },
        }
        self.entries = entries;
    }

    /// Stores `client` for `user_id` on `homeserver_url`, stamped with the current clock reading.
    pub fn set(&mut self, user_id: &str, homeserver_url: &str, client: C)
        ensures
            exists|t: u128|
                final(self)@ == old(self)@.insert(
                    (user_id@, homeserver_url@),
                    CachedClient { client, created_at: t },
                ),
    {
        let now = self.now();
        self.set_at(user_id, homeserver_url, client, now);
    }

    /// Drops whatever is stored for `user_id` on `homeserver_url`.
    pub fn remove(&mut self, user_id: &str, homeserver_url: &str)
        ensures
            final(self)@ == old(self)@.remove((user_id@, homeserver_url@)),
    {
        proof {
            use_type_invariant(&*self);
        }
        let ghost k = (user_id@, homeserver_url@);
        let found = self.find(user_id, homeserver_url);
        let mut entries: Vec<CacheEntry<C>> = Vec::new();
        std::mem::swap(&mut entries, &mut self.entries);
        let ghost old_es = entries@;
        match found {
            Some(i) => {
                let _ = entries.remove(i);
                proof {
                    let es = entries@;
                    assert forall|j: int| 0 <= j < es.len() implies #[trigger] es[j] == (if j < i {
                        old_es[j]
                    } else {
                        old_es[j + 1]
                    }) by {}
                    assert(keys_distinct(es));
                    assert forall|kk: (Seq<char>, Seq<char>)| #[trigger]
                        entries_map(es).contains_key(kk) == entries_map(old_es).remove(k).contains_key(kk) by {
                        if has_key(old_es, kk) && kk != k {
                            let j = choose|j: int| 0 <= j < old_es.len() && (#[trigger] key_of(old_es[j])) == kk;
                            assert(j != i);
                            if j < i {
                                assert(key_of(es[j]) == kk);
                            } else {
                                assert(key_of(es[j - 1]) == kk);
                            }
                        }
                        if has_key(es, kk) {
                            let j = choose|j: int| 0 <= j < es.len() && (#[trigger] key_of(es[j])) == kk;
                            if j < i {
                                assert(key_of(old_es[j]) == kk);
                            } else {
                                assert(key_of(old_es[j + 1]) == kk);
                            }
                        }
                    }
                    assert forall|kk: (Seq<char>, Seq<char>)| #[trigger] entries_map(es).contains_key(kk) implies
                        entries_map(es)[kk] == entries_map(old_es).remove(k)[kk] by {
                        let j = choose|j: int| 0 <= j < es.len() && (#[trigger] key_of(es[j])) == kk;
                        lemma_entries_map_at(es, j);
                        if j < i {
                            lemma_entries_map_at(old_es, j);
                        } else {
                            lemma_entries_map_at(old_es, j + 1);
                        }
                    }
                    assert(entries_map(es) =~= entries_map(old_es).remove(k));
                }
            },
            None => {
                proof {
                    lemma_entries_map_absent(old_es, k);
                    assert(entries_map(old_es) =~= entries_map(old_es).remove(k));
                }
            },
        }
        self.entries = entries;
    }

    /// Drops every entry that is no longer fresh at `now`.
    pub fn cleanup_at(&mut self, now: u128)
        ensures
            final(self)@ == fresh_part(old(self)@, now),
    {
        proof {
            use_type_invariant(&*self);
        }
        let ghost m0 = self@;
        let mut entries: Vec<CacheEntry<C>> = Vec::new();
        std::mem::swap(&mut entries, &mut self.entries);
        let mut i: usize = 0;
        while i < entries.len()
            invariant
                i <= entries@.len(),
                keys_distinct(entries@),
                forall|j: int| 0 <= j < i ==> is_fresh(#[trigger] entries@[j].slot.created_at, now),
                forall|kk: (Seq<char>, Seq<char>)| #[trigger] entries_map(entries@).contains_key(kk) ==>
                    m0.contains_key(kk) && entries_map(entries@)[kk] == m0[kk],
                forall|kk: (Seq<char>, Seq<char>)| m0.contains_key(kk) && is_fresh(m0[kk].created_at, now) ==>
                    #[trigger] entries_map(entries@).contains_key(kk),
            decreases entries@.len() - i,
        {
            let stale = {
                let created = entries[i].slot.created_at;
                !(created > now || now - created < CLIENT_TTL_NANOS)
            };
            if stale {
                let ghost before = entries@;
                let _ = entries.remove(i);
                proof {
                    let es = entries@;
                    assert forall|j: int| 0 <= j < es.len() implies #[trigger] es[j] == (if j < i {
                        before[j]
                    } else {
                        before[j + 1]
                    }) by {}
                    assert(keys_distinct(es));
                    assert forall|kk: (Seq<char>, Seq<char>)| #[trigger] entries_map(es).contains_key(kk) implies
                        m0.contains_key(kk) && entries_map(es)[kk] == m0[kk] by {
                        let j = choose|j: int| 0 <= j < es.len() && (#[trigger] key_of(es[j])) == kk;
                        lemma_entries_map_at(es, j);
                        if j < i {
                            lemma_entries_map_at(before, j);
                        } else {
                            lemma_entries_map_at(before, j + 1);
                        }
                    }
                    assert forall|kk: (Seq<char>, Seq<char>)| m0.contains_key(kk) && is_fresh(m0[kk].created_at, now) implies
                        #[trigger] entries_map(es).contains_key(kk) by {
                        assert(entries_map(before).contains_key(kk));
                        assert(has_key(before, kk));
                        let j = choose|j: int| 0 <= j < before.len() && (#[trigger] key_of(before[j])) == kk;
                        lemma_entries_map_at(before, j);
                        assert(entries_map(before)[kk] == m0[kk]);
                        assert(j != i);
                        if j < i {
                            assert(key_of(es[j]) == kk);
                        } else {
                            assert(key_of(es[j - 1]) == kk);
                        }
                    }
                }
            } else {
                i = i + 1;
            }
        }
        proof {
            let es = entries@;
            assert forall|kk: (Seq<char>, Seq<char>)| #[trigger] entries_map(es).contains_key(kk) implies
                is_fresh(m0[kk].created_at, now) by {
                let j = choose|j: int| 0 <= j < es.len() && (#[trigger] key_of(es[j])) == kk;
                lemma_entries_map_at(es, j);
            }
            assert(entries_map(es) =~= fresh_part(m0, now));
        }
        self.entries = entries;
    }

    /// Drops every entry that is no longer fresh by the current clock reading.
    pub fn cleanup(&mut self)
        ensures
            exists|t: u128| final(self)@ == fresh_part(old(self)@, t),
    {
        let now = self.now();
        self.cleanup_at(now);
    }

    /// Drops every entry.
    pub fn shutdown_all(&mut self)
        ensures
            final(self)@ == Map::<(Seq<char>, Seq<char>), CachedClient<C>>::empty(),
    {
        self.entries = Vec::new();
        assert(self@ =~= Map::<(Seq<char>, Seq<char>), CachedClient<C>>::empty());
    }
}

} // verus!
