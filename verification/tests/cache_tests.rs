use allibrary::cache::{Cache, CacheEntry, CacheStats, FileCache, FileCacheMetadata};

fn s(x: &str) -> String {
    x.to_string()
}

fn meta(size: u64) -> FileCacheMetadata {
    FileCacheMetadata {
        file_size: size,
        content_hash: s("hash"),
        mime_type: s("application/pdf"),
        last_modified_ms: 5,
    }
}

#[test]
fn entry_counts_its_accesses() {
    let mut e = CacheEntry::new(7u32, 100);
    assert_eq!(e, CacheEntry { data: 7, created_at: 100, last_accessed: 100, access_count: 1 });
    assert_eq!(*e.access(250), 7);
    assert_eq!(e, CacheEntry { data: 7, created_at: 100, last_accessed: 250, access_count: 2 });
    e.access_count = u64::MAX;
    e.access(300);
    assert_eq!(e.access_count, u64::MAX);
}

#[test]
fn entry_expires_after_its_lifetime() {
    let e = CacheEntry::new((), 1000);
    assert!(!e.is_expired(500, 1000));
    assert!(!e.is_expired(500, 1500));
    assert!(e.is_expired(500, 1501));
    assert!(!e.is_expired(500, 10));
    assert!(e.is_expired(0, 1001));
    assert!(!e.is_expired(u64::MAX, u64::MAX));
}

#[test]
fn cached_content_is_found_until_it_expires() {
    let mut cache = FileCache::new(1024, 10, 60);
    cache.cache_content(s("/a"), vec![1, 2, 3], 1_000);
    assert_eq!(cache.get_content("/a", 1_001), Some(vec![1, 2, 3]));
    assert_eq!(cache.get_content("/a", 61_000), Some(vec![1, 2, 3]));
    assert_eq!(cache.get_content("/a", 61_001), None);
    // the expired entry is gone for good
    assert_eq!(cache.get_content("/a", 1_001), None);
    assert_eq!(cache.get_content("/b", 0), None);
}

#[test]
fn content_above_the_size_limit_is_not_cached() {
    let mut cache = FileCache::new(3, 10, 60);
    cache.cache_content(s("/big"), vec![0; 4], 0);
    cache.cache_content(s("/fits"), vec![0; 3], 0);
    assert_eq!(cache.get_content("/big", 1), None);
    assert_eq!(cache.get_content("/fits", 1), Some(vec![0; 3]));
}

#[test]
fn least_recently_used_entry_makes_room() {
    let mut cache = FileCache::new(1024, 2, 60);
    cache.cache_content(s("/a"), vec![1], 10);
    cache.cache_content(s("/b"), vec![2], 20);
    assert_eq!(cache.get_content("/a", 30), Some(vec![1]));
    cache.cache_content(s("/c"), vec![3], 40);
    assert_eq!(cache.get_content("/b", 50), None);
    assert_eq!(cache.get_content("/a", 50), Some(vec![1]));
    assert_eq!(cache.get_content("/c", 50), Some(vec![3]));
    assert_eq!(cache.get_stats().content_entries, 2);
}

#[test]
fn expired_entries_go_before_room_is_made() {
    let mut cache = FileCache::new(1024, 2, 1);
    cache.cache_content(s("/a"), vec![1], 0);
    cache.cache_content(s("/b"), vec![2], 900);
    cache.cache_content(s("/c"), vec![3], 1_500);
    assert_eq!(cache.get_content("/a", 1_500), None);
    assert_eq!(cache.get_content("/b", 1_500), Some(vec![2]));
    assert_eq!(cache.get_content("/c", 1_500), Some(vec![3]));
}

#[test]
fn caching_again_replaces_the_entry() {
    let mut cache = FileCache::new(1024, 5, 60);
    cache.cache_content(s("/a"), vec![1], 0);
    cache.cache_content(s("/a"), vec![2, 2], 10);
    assert_eq!(cache.get_content("/a", 20), Some(vec![2, 2]));
    assert_eq!(cache.get_stats().content_entries, 1);
    assert_eq!(cache.get_stats().total_content_size, 2);
}

#[test]
fn metadata_is_cached_beside_content() {
    let mut cache = FileCache::new(1024, 5, 60);
    cache.cache_metadata(s("/a"), meta(10), 0);
    assert!(cache.has_metadata("/a", 1));
    assert_eq!(cache.get_metadata("/a", 1), Some(meta(10)));
    assert_eq!(cache.get_metadata("/a", 60_001), None);
    assert!(!cache.has_metadata("/a", 1));
    assert_eq!(cache.get_content("/a", 1), None);
}

#[test]
fn invalidate_clear_and_cleanup() {
    let mut cache = FileCache::new(1024, 5, 1);
    cache.cache_content(s("/a"), vec![1], 0);
    cache.cache_metadata(s("/a"), meta(1), 0);
    cache.cache_content(s("/b"), vec![2, 3], 800);
    cache.cache_metadata(s("/b"), meta(2), 800);
    cache.invalidate("/a");
    assert_eq!(cache.get_content("/a", 1), None);
    assert_eq!(cache.get_metadata("/a", 1), None);
    cache.cache_content(s("/c"), vec![4], 900);
    cache.cleanup(1_850);
    assert_eq!(
        cache.get_stats(),
        CacheStats {
            content_entries: 1,
            metadata_entries: 0,
            total_content_size: 1,
            max_entries: 5,
            max_content_size: 1024,
            ttl_seconds: 1,
        }
    );
    cache.clear();
    assert_eq!(cache.get_stats().content_entries, 0);
    assert_eq!(cache.get_stats().total_content_size, 0);
}

#[test]
fn generic_cache_keeps_the_order_of_arrival() {
    let mut cache: Cache<u32> = Cache::new();
    cache.put(s("x"), 1, 3, 100, 0);
    cache.put(s("y"), 2, 3, 100, 1);
    cache.put(s("z"), 3, 3, 100, 2);
    assert_eq!(cache.len(), 3);
    assert_eq!(cache.least_recently_used(), 0);
    assert_eq!(cache.get("x", 100, 50), Some(&1));
    assert_eq!(cache.least_recently_used(), 1);
    assert_eq!(cache.entry_at(0).access_count, 2);
    cache.make_room(3);
    assert_eq!(cache.len(), 2);
    assert_eq!(cache.get("y", 100, 50), None);
    cache.make_room(3);
    assert_eq!(cache.len(), 2);
    cache.remove("z");
    cache.remove("nothing");
    assert_eq!(cache.len(), 1);
    cache.purge(100, 151);
    assert_eq!(cache.len(), 0);
    cache.make_room(0);
    cache.clear();
    assert_eq!(cache.len(), 0);
}
