use matrix_mcp_server_r2::matrix::cache::CLIENT_TTL_NANOS;
use matrix_mcp_server_r2::matrix::ClientCache;

#[test]
fn cache_set_and_get() {
    let cache: ClientCache<u32> = ClientCache::new();
    let result = cache.get("@user:example.com", "https://matrix.example.com");
    assert!(result.is_none());
}

#[test]
fn cache_shutdown_clears_all() {
    let mut cache: ClientCache<u32> = ClientCache::new();
    cache.shutdown_all();
    let result = cache.get("@user:example.com", "https://matrix.example.com");
    assert!(result.is_none());
}

#[test]
fn stored_client_is_handed_out_until_it_expires() {
    let mut cache: ClientCache<u32> = ClientCache::new();
    cache.set_at("@a:x", "https://x", 7, 1_000);
    assert_eq!(cache.get_at("@a:x", "https://x", 1_000), Some(&7));
    assert_eq!(cache.get_at("@a:x", "https://x", 1_000 + CLIENT_TTL_NANOS - 1), Some(&7));
    assert_eq!(cache.get_at("@a:x", "https://x", 1_000 + CLIENT_TTL_NANOS), None);
    // A reading from before the entry was stored counts as no time at all.
    assert_eq!(cache.get_at("@a:x", "https://x", 0), Some(&7));
}

#[test]
fn keys_are_separate() {
    let mut cache: ClientCache<u32> = ClientCache::new();
    cache.set_at("@a:x", "https://x", 1, 0);
    cache.set_at("@b:x", "https://x", 2, 0);
    cache.set_at("@a:x", "https://y", 3, 0);
    assert_eq!(cache.get_at("@a:x", "https://x", 5), Some(&1));
    assert_eq!(cache.get_at("@b:x", "https://x", 5), Some(&2));
    assert_eq!(cache.get_at("@a:x", "https://y", 5), Some(&3));
    cache.set_at("@a:x", "https://x", 4, 10);
    assert_eq!(cache.get_at("@a:x", "https://x", 11), Some(&4));
}

#[test]
fn remove_drops_one_key() {
    let mut cache: ClientCache<u32> = ClientCache::new();
    cache.set_at("@a:x", "https://x", 1, 0);
    cache.set_at("@b:x", "https://x", 2, 0);
    cache.remove("@a:x", "https://x");
    assert_eq!(cache.get_at("@a:x", "https://x", 1), None);
    assert_eq!(cache.get_at("@b:x", "https://x", 1), Some(&2));
}

#[test]
fn cleanup_keeps_only_fresh_entries() {
    let mut cache: ClientCache<u32> = ClientCache::new();
    cache.set_at("@old:x", "https://x", 1, 0);
    cache.set_at("@new:x", "https://x", 2, CLIENT_TTL_NANOS);
    cache.cleanup_at(CLIENT_TTL_NANOS + 1);
    assert_eq!(cache.get_at("@old:x", "https://x", 0), None);
    assert_eq!(cache.get_at("@new:x", "https://x", CLIENT_TTL_NANOS + 1), Some(&2));
}

#[test]
fn real_clock_store_and_fetch() {
    let mut cache: ClientCache<&str> = ClientCache::new();
    cache.set("@a:x", "https://x", "client");
    assert_eq!(cache.get("@a:x", "https://x"), Some(&"client"));
    cache.cleanup();
    assert_eq!(cache.get("@a:x", "https://x"), Some(&"client"));
    cache.shutdown_all();
    assert_eq!(cache.get("@a:x", "https://x"), None);
}

#[test]
fn pairs_that_join_alike_stay_apart() {
    let mut cache: ClientCache<u32> = ClientCache::new();
    cache.set_at("@a:b", "c", 1, 0);
    cache.set_at("@a", "b:c", 2, 0);
    assert_eq!(cache.get_at("@a:b", "c", 1), Some(&1));
    assert_eq!(cache.get_at("@a", "b:c", 1), Some(&2));
    cache.remove("@a", "b:c");
    assert_eq!(cache.get_at("@a:b", "c", 1), Some(&1));
    assert_eq!(cache.get_at("@a", "b:c", 1), None);
}
