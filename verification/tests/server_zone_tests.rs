// Server-zone counters: request counting, histograms, byte totals and the
// explicit minimum-tracking flag.

use nginx_vts_rust::update_server_zone_stats;
use nginx_vts_rust::VtsNodeStats;
use nginx_vts_rust::VtsStatsManager;

#[test]
fn test_node_stats_new() {
    let stats = VtsNodeStats::new();
    assert_eq!(stats.requests, 0);
    assert_eq!(stats.bytes_in, 0);
    assert_eq!(stats.bytes_out, 0);
    assert_eq!(stats.request_time_max, 0);
    assert!(!stats.request_time_min_set);
}

#[test]
fn test_node_update_request() {
    let mut stats = VtsNodeStats::new();
    stats.update_request(200, 1024, 2048, 150);
    stats.update_request(404, 512, 256, 80);

    assert_eq!(stats.requests, 2);
    assert_eq!(stats.bytes_in, 1536);
    assert_eq!(stats.bytes_out, 2304);
    assert_eq!(stats.status_2xx, 1);
    assert_eq!(stats.status_4xx, 1);
    assert_eq!(stats.request_time_total, 230);
    assert_eq!(stats.request_time_min, 80);
    assert_eq!(stats.request_time_max, 150);
    assert!(stats.request_time_min_set);
}

#[test]
fn test_node_unclassified_status_still_counts() {
    // A status outside 100..=599 touches no histogram bucket, but the
    // request itself is still counted: the request count may exceed the
    // bucket sum for server zones.
    let mut stats = VtsNodeStats::new();
    stats.update_request(99, 1, 1, 1);
    stats.update_request(600, 1, 1, 1);
    stats.update_request(0, 1, 1, 1);
    assert_eq!(stats.requests, 3);
    let bucket_sum = stats.status_1xx + stats.status_2xx + stats.status_3xx + stats.status_4xx
        + stats.status_5xx;
    assert_eq!(bucket_sum, 0);
}

#[test]
fn test_node_zero_duration_min_sample() {
    // A genuine zero-duration sample sets the minimum; it is not
    // confusable with "no sample yet".
    let mut stats = VtsNodeStats::new();
    assert!(!stats.request_time_min_set);
    stats.update_request(200, 1, 1, 0);
    assert!(stats.request_time_min_set);
    assert_eq!(stats.request_time_min, 0);
    stats.update_request(200, 1, 1, 50);
    assert_eq!(stats.request_time_min, 0);
    assert_eq!(stats.request_time_max, 50);
}

#[test]
fn test_requests_total_equals_call_count() {
    // N recorded requests leave requests == N; the counter only moves up
    // until an explicit reset clears it.
    let mut manager = VtsStatsManager::new();
    let n: u64 = 137;
    for i in 0..n {
        update_server_zone_stats(&mut manager, "zone", 200, i, i, i % 1000).unwrap();
    }
    assert_eq!(manager.get_server_stats("zone").unwrap().requests, n);

    manager.reset_server_zones();
    assert!(manager.get_server_stats("zone").is_none());
}

#[test]
fn test_server_zone_scenario_two_requests() {
    // Two requests against one zone: totals and histogram per request.
    let mut manager = VtsStatsManager::new();
    update_server_zone_stats(&mut manager, "example.com", 200, 1024, 2048, 150).unwrap();
    update_server_zone_stats(&mut manager, "example.com", 404, 512, 256, 80).unwrap();

    let stats = manager.get_server_stats("example.com").unwrap();
    assert_eq!(stats.requests, 2);
    assert_eq!(stats.bytes_in, 1536);
    assert_eq!(stats.bytes_out, 2304);
    assert_eq!(stats.status_2xx, 1);
    assert_eq!(stats.status_4xx, 1);
}

#[test]
fn test_server_zone_avg_request_time() {
    let mut manager = VtsStatsManager::new();
    update_server_zone_stats(&mut manager, "z", 200, 0, 0, 100).unwrap();
    update_server_zone_stats(&mut manager, "z", 200, 0, 0, 201).unwrap();
    // Average of 150.5 ms in hundredths of a millisecond, rounded half up.
    assert_eq!(manager.get_server_stats("z").unwrap().avg_request_time(), 15050);
}

#[test]
fn test_server_zone_invalid_arguments_rejected() {
    let mut manager = VtsStatsManager::new();
    assert!(update_server_zone_stats(&mut manager, "", 200, 1, 1, 1).is_err());
    assert!(update_server_zone_stats(&mut manager, "zone", 200, 1, 1, 86400001).is_err());
    assert!(manager.get_server_stats("zone").is_none());
    // The boundary value itself is accepted.
    assert!(update_server_zone_stats(&mut manager, "zone", 200, 1, 1, 86400000).is_ok());
}

#[test]
fn test_get_all_stats_lists_every_zone() {
    let mut manager = VtsStatsManager::new();
    update_server_zone_stats(&mut manager, "a", 200, 1, 1, 1).unwrap();
    update_server_zone_stats(&mut manager, "b", 200, 1, 1, 1).unwrap();
    update_server_zone_stats(&mut manager, "a", 500, 1, 1, 1).unwrap();
    let all = manager.get_all_stats();
    assert_eq!(all.len(), 2);
    assert_eq!(all[0].0, "a");
    assert_eq!(all[0].1.requests, 2);
    assert_eq!(all[1].0, "b");
    assert_eq!(all[1].1.requests, 1);
}

#[test]
fn test_connection_stats_overwrite() {
    let mut manager = VtsStatsManager::new();
    nginx_vts_rust::update_connection_stats(&mut manager, 1, 0, 1, 0, 16, 16);
    let c = manager.get_connection_stats();
    assert_eq!(c.active, 1);
    assert_eq!(c.writing, 1);
    assert_eq!(c.accepted, 16);
    assert_eq!(c.handled, 16);
}

#[test]
fn test_full_snapshot() {
    let mut manager = VtsStatsManager::new();
    let mut cache = nginx_vts_rust::CacheStatsManager::new();
    update_server_zone_stats(&mut manager, "zone-a", 200, 5, 6, 7).unwrap();
    nginx_vts_rust::update_upstream_zone_stats(&mut manager, "up", "1.2.3.4:80", 10, 4, 100, 200, 200)
        .unwrap();
    nginx_vts_rust::update_cache_stats(&mut cache, "cz", "HIT").unwrap();

    let snap = manager.get_stats(&cache, String::from("host"), String::from("1.0"), 42);
    assert_eq!(snap.hostname, "host");
    assert_eq!(snap.version, "1.0");
    assert_eq!(snap.timestamp, 42);
    assert_eq!(snap.load_timestamp, 42);

    let server = snap.server_zones.get("zone-a").unwrap();
    assert_eq!(server.requests, 1);
    assert_eq!(server.bytes_in, 5);
    assert_eq!(server.request_times.total, 7);
    assert_eq!(server.request_times.count, 1);
    assert!(server.request_times.min_set);

    let members = snap.upstream_zones.get("up").unwrap();
    assert_eq!(members.len(), 1);
    assert_eq!(members[0].server, "1.2.3.4:80");
    assert_eq!(members[0].requests, 1);
    assert_eq!(members[0].response_times.total, 4);
    assert_eq!(members[0].response_times.count, 1);
    assert!(!members[0].down);

    let cz = snap.cache_zones.get("cz").unwrap();
    assert_eq!(cz.hit, 1);
    assert_eq!(cz.miss, 0);
}
