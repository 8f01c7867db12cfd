// Cache statistics: outcome counting, ratios, sizes, and the zone registry.
//
// Ratios are reported in hundredths of a percent, so 50% reads as 5000.

use nginx_vts_rust::get_all_cache_zones;
use nginx_vts_rust::record_cache_access;
use nginx_vts_rust::update_cache_size;
use nginx_vts_rust::update_cache_stats;
use nginx_vts_rust::CacheOutcome;
use nginx_vts_rust::CacheStatsManager;
use nginx_vts_rust::CacheZoneStats;
use nginx_vts_rust::VtsCacheSizeStats;
use nginx_vts_rust::VtsCacheStats;

#[test]
fn test_cache_stats_new() {
    let stats = VtsCacheStats::new();
    assert_eq!(stats.hit, 0);
    assert_eq!(stats.miss, 0);
    assert_eq!(stats.total_requests(), 0);
    assert_eq!(stats.hit_ratio(), 0);
}

#[test]
fn test_cache_stats_update() {
    let mut stats = VtsCacheStats::new();

    stats.update_cache_status("HIT");
    stats.update_cache_status("HIT");
    stats.update_cache_status("MISS");
    stats.update_cache_status("BYPASS");

    assert_eq!(stats.hit, 2);
    assert_eq!(stats.miss, 1);
    assert_eq!(stats.bypass, 1);
    assert_eq!(stats.total_requests(), 4);
    assert_eq!(stats.hit_ratio(), 5000);
}

#[test]
fn test_cache_stats_unknown_status() {
    let mut stats = VtsCacheStats::new();
    stats.update_cache_status("UNKNOWN");
    assert_eq!(stats.total_requests(), 0);
}

#[test]
fn test_cache_stats_lowercase_status() {
    let mut stats = VtsCacheStats::new();
    stats.update_cache_status("hit");
    stats.update_cache_status("Miss");
    assert_eq!(stats.hit, 1);
    assert_eq!(stats.miss, 1);
}

#[test]
fn test_cache_outcome_parse() {
    assert_eq!(CacheOutcome::parse("HIT"), Some(CacheOutcome::Hit));
    assert_eq!(CacheOutcome::parse("revalidated"), Some(CacheOutcome::Revalidated));
    assert_eq!(CacheOutcome::parse("Scarce"), Some(CacheOutcome::Scarce));
    assert_eq!(CacheOutcome::parse("EXPIRED"), Some(CacheOutcome::Expired));
    assert_eq!(CacheOutcome::parse(""), None);
    assert_eq!(CacheOutcome::parse("HITS"), None);
    assert_eq!(CacheOutcome::parse("nonsense"), None);
}

#[test]
fn test_cache_size_stats() {
    let mut size_stats = VtsCacheSizeStats::new(1000, 500);
    assert_eq!(size_stats.max_size, 1000);
    assert_eq!(size_stats.used_size, 500);
    assert_eq!(size_stats.utilization_percentage(), 5000);

    size_stats.update_used_size(750);
    assert_eq!(size_stats.used_size, 750);
    assert_eq!(size_stats.utilization_percentage(), 7500);
}

#[test]
fn test_cache_zone_stats() {
    let mut zone = CacheZoneStats::new("test_zone");
    assert_eq!(zone.name, "test_zone");

    zone.update_cache_status("HIT");
    zone.update_cache_size(2048, 1024);

    assert_eq!(zone.cache.hit, 1);
    assert_eq!(zone.size.max_size, 2048);
    assert_eq!(zone.size.used_size, 1024);
    assert_eq!(zone.size.utilization_percentage(), 5000);
}

#[test]
fn test_cache_zone_byte_directions() {
    // Direction is a pure function of the outcome: reads serve from the
    // cache, writes fill it, bypass and scarce touch neither.
    let mut zone = CacheZoneStats::new("dirs");
    zone.update_cache_access(CacheOutcome::Hit, 100);
    zone.update_cache_access(CacheOutcome::Stale, 10);
    zone.update_cache_access(CacheOutcome::Updating, 1);
    zone.update_cache_access(CacheOutcome::Revalidated, 1000);
    zone.update_cache_access(CacheOutcome::Miss, 7);
    zone.update_cache_access(CacheOutcome::Expired, 70);
    zone.update_cache_access(CacheOutcome::Bypass, 99999);
    zone.update_cache_access(CacheOutcome::Scarce, 88888);
    assert_eq!(zone.bytes_read, 1111);
    assert_eq!(zone.bytes_written, 77);
    assert_eq!(zone.cache.total_requests(), 8);
}

#[test]
fn test_cache_stats_manager() {
    let mut manager = CacheStatsManager::new();

    manager.update_cache_stats("zone1", "HIT");
    manager.update_cache_stats("zone1", "MISS");
    manager.update_cache_size("zone1", 1000, 500);

    let zone_stats = manager.get_cache_zone("zone1").unwrap();
    assert_eq!(zone_stats.name, "zone1");
    assert_eq!(zone_stats.cache.hit, 1);
    assert_eq!(zone_stats.cache.miss, 1);
    assert_eq!(zone_stats.size.max_size, 1000);
    assert_eq!(zone_stats.size.used_size, 500);

    let all_zones = manager.get_all_cache_zones();
    assert_eq!(all_zones.len(), 1);
    assert!(all_zones.contains_key("zone1"));
}

#[test]
fn cache_stats_test_cache_stats_multiple_zones() {
    let mut manager = CacheStatsManager::new();

    manager.update_cache_stats("zone1", "HIT");
    manager.update_cache_stats("zone2", "MISS");

    let all_zones = manager.get_all_cache_zones();
    assert_eq!(all_zones.len(), 2);

    let zone1 = all_zones.get("zone1").unwrap();
    let zone2 = all_zones.get("zone2").unwrap();

    assert_eq!(zone1.cache.hit, 1);
    assert_eq!(zone2.cache.miss, 1);
}

#[test]
fn test_cache_stats_clear() {
    let mut manager = CacheStatsManager::new();

    manager.update_cache_stats("zone1", "HIT");
    manager.clear();

    let all_zones = manager.get_all_cache_zones();
    assert_eq!(all_zones.len(), 0);
}

#[test]
fn test_cache_stats_basic_functionality() {
    let mut manager = CacheStatsManager::new();

    update_cache_stats(&mut manager, "zone1", "HIT").unwrap();
    update_cache_stats(&mut manager, "zone1", "HIT").unwrap();
    update_cache_stats(&mut manager, "zone1", "MISS").unwrap();
    update_cache_stats(&mut manager, "zone1", "BYPASS").unwrap();

    update_cache_size(&mut manager, "zone1", 1048576, 524288).unwrap();

    let cache_zones = get_all_cache_zones(&manager);
    assert_eq!(cache_zones.len(), 1);

    let zone1 = cache_zones.get("zone1").unwrap();
    assert_eq!(zone1.name, "zone1");
    assert_eq!(zone1.cache.hit, 2);
    assert_eq!(zone1.cache.miss, 1);
    assert_eq!(zone1.cache.bypass, 1);
    assert_eq!(zone1.cache.total_requests(), 4);
    assert_eq!(zone1.cache.hit_ratio(), 5000);
    assert_eq!(zone1.size.max_size, 1048576);
    assert_eq!(zone1.size.used_size, 524288);
    assert_eq!(zone1.size.utilization_percentage(), 5000);
}

#[test]
fn test_cache_stats_test_cache_stats_multiple_zones() {
    let mut manager = CacheStatsManager::new();

    update_cache_stats(&mut manager, "zone1", "HIT").unwrap();
    update_cache_stats(&mut manager, "zone1", "MISS").unwrap();
    update_cache_stats(&mut manager, "zone2", "HIT").unwrap();
    update_cache_stats(&mut manager, "zone2", "HIT").unwrap();
    update_cache_stats(&mut manager, "zone2", "HIT").unwrap();

    update_cache_size(&mut manager, "zone1", 1048576, 262144).unwrap();
    update_cache_size(&mut manager, "zone2", 2097152, 1572864).unwrap();

    let cache_zones = get_all_cache_zones(&manager);
    assert_eq!(cache_zones.len(), 2);

    let zone1 = cache_zones.get("zone1").unwrap();
    assert_eq!(zone1.cache.hit, 1);
    assert_eq!(zone1.cache.miss, 1);
    assert_eq!(zone1.cache.hit_ratio(), 5000);

    let zone2 = cache_zones.get("zone2").unwrap();
    assert_eq!(zone2.cache.hit, 3);
    assert_eq!(zone2.cache.miss, 0);
    assert_eq!(zone2.cache.hit_ratio(), 10000);
    assert_eq!(zone2.size.utilization_percentage(), 7500);
}

#[test]
fn test_cache_stats_all_statuses() {
    let mut manager = CacheStatsManager::new();

    update_cache_stats(&mut manager, "comprehensive_zone", "HIT").unwrap();
    update_cache_stats(&mut manager, "comprehensive_zone", "MISS").unwrap();
    update_cache_stats(&mut manager, "comprehensive_zone", "BYPASS").unwrap();
    update_cache_stats(&mut manager, "comprehensive_zone", "EXPIRED").unwrap();
    update_cache_stats(&mut manager, "comprehensive_zone", "STALE").unwrap();
    update_cache_stats(&mut manager, "comprehensive_zone", "UPDATING").unwrap();
    update_cache_stats(&mut manager, "comprehensive_zone", "REVALIDATED").unwrap();
    update_cache_stats(&mut manager, "comprehensive_zone", "SCARCE").unwrap();

    let cache_zones = get_all_cache_zones(&manager);
    let zone = cache_zones.get("comprehensive_zone").unwrap();

    assert_eq!(zone.cache.hit, 1);
    assert_eq!(zone.cache.miss, 1);
    assert_eq!(zone.cache.bypass, 1);
    assert_eq!(zone.cache.expired, 1);
    assert_eq!(zone.cache.stale, 1);
    assert_eq!(zone.cache.updating, 1);
    assert_eq!(zone.cache.revalidated, 1);
    assert_eq!(zone.cache.scarce, 1);
    assert_eq!(zone.cache.total_requests(), 8);
    // 1 hit out of 8 is 12.5%.
    assert_eq!(zone.cache.hit_ratio(), 1250);
}

#[test]
fn test_cache_access_totals_match_calls() {
    // The sum of the eight outcome counters always equals the number of
    // accesses recorded: no double count, no drop.
    let mut manager = CacheStatsManager::new();
    let outcomes = [
        CacheOutcome::Hit,
        CacheOutcome::Miss,
        CacheOutcome::Hit,
        CacheOutcome::Bypass,
        CacheOutcome::Expired,
        CacheOutcome::Hit,
        CacheOutcome::Stale,
        CacheOutcome::Updating,
        CacheOutcome::Revalidated,
        CacheOutcome::Scarce,
        CacheOutcome::Miss,
    ];
    for (i, o) in outcomes.iter().enumerate() {
        record_cache_access(&mut manager, "z", *o, i as u64).unwrap();
    }
    let zone = manager.get_cache_zone("z").unwrap();
    let sum = zone.cache.hit
        + zone.cache.miss
        + zone.cache.bypass
        + zone.cache.expired
        + zone.cache.stale
        + zone.cache.updating
        + zone.cache.revalidated
        + zone.cache.scarce;
    assert_eq!(sum, outcomes.len() as u64);
    assert_eq!(zone.cache.total_requests(), outcomes.len() as u64);
}

#[test]
fn test_cache_hit_ratio_scenario() {
    // Three hits and two misses leave a 60% hit ratio and five requests.
    let mut manager = CacheStatsManager::new();
    record_cache_access(&mut manager, "z", CacheOutcome::Hit, 10).unwrap();
    record_cache_access(&mut manager, "z", CacheOutcome::Hit, 20).unwrap();
    record_cache_access(&mut manager, "z", CacheOutcome::Hit, 30).unwrap();
    record_cache_access(&mut manager, "z", CacheOutcome::Miss, 40).unwrap();
    record_cache_access(&mut manager, "z", CacheOutcome::Miss, 50).unwrap();
    let zone = manager.get_cache_zone("z").unwrap();
    assert_eq!(zone.cache.hit_ratio(), 6000);
    assert_eq!(zone.cache.total_requests(), 5);
}

#[test]
fn test_cache_utilization_scenario() {
    // Half of a one-mebibyte cache in use reads as 50%.
    let mut manager = CacheStatsManager::new();
    update_cache_size(&mut manager, "z", 1048576, 524288).unwrap();
    let zone = manager.get_cache_zone("z").unwrap();
    assert_eq!(zone.size.utilization_percentage(), 5000);
}

#[test]
fn test_cache_empty_zone_name_rejected() {
    let mut manager = CacheStatsManager::new();
    assert!(update_cache_stats(&mut manager, "", "HIT").is_err());
    assert!(update_cache_size(&mut manager, "", 1, 1).is_err());
    assert!(record_cache_access(&mut manager, "", CacheOutcome::Hit, 0).is_err());
    assert_eq!(get_all_cache_zones(&manager).len(), 0);
}
