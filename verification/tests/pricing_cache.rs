use tokenx::pricing_cache::{classify_cache, get_cache_path, load_cache_with_policy, parse_cache, stamp_cache, CachedData, ParsedCache, CACHE_TTL_SECS};

#[test]
fn cache_path_joins_directory_and_file() {
    assert_eq!(get_cache_path("/tmp/cache", "pricing.json"), "/tmp/cache/pricing.json");
    assert_eq!(get_cache_path("/tmp/cache/", "pricing.json"), "/tmp/cache/pricing.json");
}

#[test]
fn freshness_follows_the_one_hour_ttl() {
    let fresh = classify_cache(CachedData { timestamp: 1_000, data: 7 }, 1_000 + CACHE_TTL_SECS);
    assert!(matches!(fresh, Ok(ParsedCache::Fresh(7))));
    let stale = classify_cache(CachedData { timestamp: 1_000, data: 7 }, 1_001 + CACHE_TTL_SECS);
    assert!(matches!(stale, Ok(ParsedCache::Stale(7))));
}

#[test]
fn future_timestamp_is_an_error() {
    let error = classify_cache(CachedData { timestamp: 1_001, data: 7 }, 1_000).err().unwrap();
    assert_eq!(error, "cache timestamp is later than the current system clock");
}

#[test]
fn stale_entries_load_only_when_any_age_is_accepted() {
    assert_eq!(load_cache_with_policy(Ok(ParsedCache::Stale(3)), false), None);
    assert_eq!(load_cache_with_policy(Ok(ParsedCache::Stale(3)), true), Some(3));
    assert_eq!(load_cache_with_policy(Ok(ParsedCache::Fresh(4)), false), Some(4));
    assert_eq!(load_cache_with_policy::<u8>(Err("bad".to_string()), true), None);
}

#[test]
fn entries_stamped_now_parse_as_fresh() {
    let stamped = stamp_cache("data");
    assert_eq!(stamped.data, "data");
    assert!(stamped.timestamp > 0);
    assert!(matches!(parse_cache(stamped), Ok(ParsedCache::Fresh("data"))));
}
