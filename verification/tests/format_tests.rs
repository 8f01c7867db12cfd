// The Prometheus formatter and the full status document.

use nginx_vts_rust::generate_vts_status_content;
use nginx_vts_rust::update_cache_size;
use nginx_vts_rust::update_cache_stats;
use nginx_vts_rust::update_connection_stats;
use nginx_vts_rust::update_server_zone_stats;
use nginx_vts_rust::update_upstream_zone_stats;
use nginx_vts_rust::CacheStatsManager;
use nginx_vts_rust::PrometheusFormatter;
use nginx_vts_rust::StrTable;
use nginx_vts_rust::UpstreamZone;
use nginx_vts_rust::VtsStatsManager;

fn create_test_upstream_zone() -> UpstreamZone {
    let mut zone = UpstreamZone::new("test_backend");

    let server1 = zone.get_or_create_server("10.0.0.1:80");
    server1.request_counter = 100;
    server1.in_bytes = 50000;
    server1.out_bytes = 25000;
    server1.request_time_total = 5000;
    server1.request_time_counter = 100;
    server1.response_time_total = 2500;
    server1.response_time_counter = 100;
    server1.responses.status_2xx = 95;
    server1.responses.status_4xx = 3;
    server1.responses.status_5xx = 2;
    server1.down = false;

    let server2 = zone.get_or_create_server("10.0.0.2:80");
    server2.request_counter = 50;
    server2.in_bytes = 25000;
    server2.out_bytes = 12500;
    server2.down = true;

    zone
}

fn zones_with_test_backend() -> StrTable<UpstreamZone> {
    let mut zones: StrTable<UpstreamZone> = StrTable::new();
    zones.insert("test_backend", create_test_upstream_zone());
    zones
}

#[test]
fn test_prometheus_formatter_creation() {
    let formatter = PrometheusFormatter::new();
    assert_eq!(formatter.metric_prefix, "nginx_vts_");

    let custom_formatter = PrometheusFormatter::with_prefix("custom_");
    assert_eq!(custom_formatter.metric_prefix, "custom_");
}

#[test]
fn test_format_upstream_stats() {
    let formatter = PrometheusFormatter::new();
    let upstream_zones = zones_with_test_backend();

    let output = formatter.format_upstream_stats(&upstream_zones);

    assert!(output.contains("# HELP nginx_vts_upstream_requests_total"));
    assert!(output.contains("# TYPE nginx_vts_upstream_requests_total counter"));

    assert!(output.contains(
        "nginx_vts_upstream_requests_total{upstream=\"test_backend\",server=\"10.0.0.1:80\"} 100"
    ));
    assert!(output.contains(
        "nginx_vts_upstream_requests_total{upstream=\"test_backend\",server=\"10.0.0.2:80\"} 50"
    ));

    assert!(output.contains(
        "nginx_vts_upstream_bytes_total{upstream=\"test_backend\",server=\"10.0.0.1:80\",direction=\"in\"} 50000"
    ));
    assert!(output.contains(
        "nginx_vts_upstream_bytes_total{upstream=\"test_backend\",server=\"10.0.0.1:80\",direction=\"out\"} 25000"
    ));

    assert!(output.contains(
        "nginx_vts_upstream_server_up{upstream=\"test_backend\",server=\"10.0.0.1:80\"} 1"
    ));
    assert!(output.contains(
        "nginx_vts_upstream_server_up{upstream=\"test_backend\",server=\"10.0.0.2:80\"} 0"
    ));

    // 50 ms and 25 ms averages, rendered in seconds.
    assert!(output.contains(
        "nginx_vts_upstream_response_seconds{upstream=\"test_backend\",server=\"10.0.0.1:80\",type=\"request_avg\"} 0.050000"
    ));
    assert!(output.contains(
        "nginx_vts_upstream_response_seconds{upstream=\"test_backend\",server=\"10.0.0.1:80\",type=\"upstream_avg\"} 0.025000"
    ));
}

#[test]
fn test_format_empty_stats() {
    // Every family always emits its HELP/TYPE header, even with zero
    // entries; no series line follows.
    let formatter = PrometheusFormatter::new();
    let empty_upstream: StrTable<UpstreamZone> = StrTable::new();

    let upstream_output = formatter.format_upstream_stats(&empty_upstream);

    assert!(upstream_output.contains("# HELP nginx_vts_upstream_requests_total"));
    assert!(upstream_output.contains("# TYPE nginx_vts_upstream_requests_total counter"));
    assert!(!upstream_output.contains("nginx_vts_upstream_requests_total{"));
}

#[test]
fn test_format_upstream_only() {
    let formatter = PrometheusFormatter::new();
    let upstream_zones = zones_with_test_backend();

    let output = formatter.format_upstream_stats(&upstream_zones);

    assert!(output.contains("nginx_vts_upstream_requests_total"));
    assert!(output.contains("nginx_vts_upstream_bytes_total"));
    assert!(output.contains("nginx_vts_upstream_response_seconds"));
}

#[test]
fn test_custom_metric_prefix() {
    let formatter = PrometheusFormatter::with_prefix("custom_vts_");
    let upstream_zones = zones_with_test_backend();

    let output = formatter.format_upstream_stats(&upstream_zones);

    assert!(output.contains("# HELP custom_vts_upstream_requests_total"));
    assert!(output.contains("custom_vts_upstream_requests_total{upstream=\"test_backend\""));
    assert!(!output.contains("nginx_vts_"));
}

#[test]
fn test_format_nginx_info() {
    let formatter = PrometheusFormatter::new();
    let out = formatter.format_nginx_info("host-a", "1.2.3");
    assert!(out.contains("# HELP nginx_vts_info Nginx VTS module information"));
    assert!(out.contains("# TYPE nginx_vts_info gauge"));
    assert!(out.contains("nginx_vts_info{hostname=\"host-a\",version=\"1.2.3\"} 1"));
}

#[test]
fn test_generate_vts_status_content() {
    let manager = VtsStatsManager::new();
    let cache = CacheStatsManager::new();
    let content =
        generate_vts_status_content(&manager, &cache, "test-hostname", "0.1.0", "1234567890");
    assert!(content.contains("nginx-vts-rust"));
    assert!(content.contains("Version: 0.1.0"));
    assert!(content.contains("# VTS Status: Active"));
    assert!(content.contains("test-hostname"));
    assert!(content.contains("Current Time: 1234567890"));
    assert!(content.contains("# Prometheus Metrics:"));
}

#[test]
fn test_format_prometheus_idempotent() {
    // Two renderings of the same unmodified snapshot are byte-identical.
    let mut manager = VtsStatsManager::new();
    let mut cache = CacheStatsManager::new();
    update_server_zone_stats(&mut manager, "example.com", 200, 10, 20, 30).unwrap();
    update_upstream_zone_stats(&mut manager, "backend", "127.0.0.1:8080", 94, 30, 1370, 615, 200)
        .unwrap();
    update_cache_stats(&mut cache, "z", "HIT").unwrap();
    update_cache_size(&mut cache, "z", 100, 50).unwrap();

    let first = generate_vts_status_content(&manager, &cache, "h", "v", "t");
    let second = generate_vts_status_content(&manager, &cache, "h", "v", "t");
    assert_eq!(first, second);
    assert_eq!(first.as_bytes(), second.as_bytes());
}

#[test]
fn test_integrated_vts_status_functionality() {
    let mut manager = VtsStatsManager::new();
    let cache = CacheStatsManager::new();

    update_connection_stats(&mut manager, 1, 0, 1, 0, 16, 16);

    update_server_zone_stats(&mut manager, "test1-example.com", 200, 1024, 2048, 150).unwrap();
    update_server_zone_stats(&mut manager, "test1-example.com", 404, 512, 256, 80).unwrap();
    update_server_zone_stats(&mut manager, "test1-api.example.com", 200, 2048, 4096, 200).unwrap();

    update_upstream_zone_stats(&mut manager, "test1-backend_pool", "192.168.1.10:80", 100, 50, 1500, 800, 200)
        .unwrap();
    update_upstream_zone_stats(&mut manager, "test1-backend_pool", "192.168.1.11:80", 150, 75, 2000, 1000, 200)
        .unwrap();
    update_upstream_zone_stats(&mut manager, "test1-backend_pool", "192.168.1.10:80", 120, 60, 1200, 600, 404)
        .unwrap();

    update_upstream_zone_stats(&mut manager, "test1-api_pool", "192.168.2.10:8080", 80, 40, 800, 400, 200)
        .unwrap();
    update_upstream_zone_stats(&mut manager, "test1-api_pool", "192.168.2.11:8080", 300, 200, 3000, 1500, 500)
        .unwrap();

    let status_content =
        generate_vts_status_content(&manager, &cache, "test-hostname", "0.1.0", "1234567890");

    assert!(status_content.contains("# nginx-vts-rust"));
    assert!(status_content.contains("# VTS Status: Active"));

    assert!(status_content.contains("# Prometheus Metrics:"));
    assert!(status_content.contains("nginx_vts_upstream_requests_total"));
    assert!(status_content.contains("nginx_vts_upstream_responses_total"));

    assert!(status_content.contains("test1-backend_pool"));
    assert!(status_content.contains("192.168.1.10:80"));
    assert!(status_content.contains("192.168.1.11:80"));
    assert!(status_content.contains("test1-api_pool"));
}

#[test]
fn test_issue6_complete_metrics_output() {
    let mut manager = VtsStatsManager::new();
    let cache = CacheStatsManager::new();

    update_connection_stats(&mut manager, 1, 0, 1, 0, 16, 16);
    update_server_zone_stats(&mut manager, "test2-example.com", 200, 50000, 2000000, 125).unwrap();
    update_server_zone_stats(&mut manager, "test2-example.com", 404, 5000, 100000, 50).unwrap();
    update_upstream_zone_stats(&mut manager, "test2-backend", "10.0.0.1:8080", 50, 25, 750000, 250000, 200)
        .unwrap();
    update_upstream_zone_stats(&mut manager, "test2-backend", "10.0.0.2:8080", 60, 30, 680000, 230000, 200)
        .unwrap();
    update_upstream_zone_stats(&mut manager, "test2-api_backend", "192.168.1.10:9090", 80, 40, 400000, 200000, 200)
        .unwrap();

    let content =
        generate_vts_status_content(&manager, &cache, "test-hostname", "0.1.0", "1234567890");

    assert!(content.contains("# HELP nginx_vts_info Nginx VTS module information"));
    assert!(content.contains("# TYPE nginx_vts_info gauge"));
    assert!(content.contains("nginx_vts_info{hostname="));

    assert!(content.contains("# HELP nginx_vts_connections Current nginx connections"));
    assert!(content.contains("nginx_vts_connections{state=\"active\"} 1"));
    assert!(content.contains("nginx_vts_connections{state=\"writing\"} 1"));
    assert!(content.contains("nginx_vts_connections_total{state=\"accepted\"} 16"));
    assert!(content.contains("nginx_vts_connections_total{state=\"handled\"} 16"));

    assert!(content.contains("# HELP nginx_vts_server_requests_total Total number of requests"));
    assert!(content.contains("nginx_vts_server_requests_total{zone=\"test2-example.com\"}"));
    assert!(content.contains("# HELP nginx_vts_server_bytes_total Total bytes transferred"));
    assert!(content.contains("nginx_vts_server_bytes_total{zone=\"test2-example.com\",direction=\"in\"}"));
    assert!(content.contains("nginx_vts_server_bytes_total{zone=\"test2-example.com\",direction=\"out\"}"));

    assert!(content.contains(
        "nginx_vts_upstream_requests_total{upstream=\"test2-backend\",server=\"10.0.0.1:8080\"}"
    ));
    assert!(content.contains(
        "nginx_vts_upstream_requests_total{upstream=\"test2-api_backend\",server=\"192.168.1.10:9090\"}"
    ));
}

#[test]
fn test_vts_stats_persistence() {
    let mut manager = VtsStatsManager::new();
    let cache = CacheStatsManager::new();

    update_upstream_zone_stats(&mut manager, "test3-persistence_backend", "10.0.0.1:80", 100, 50, 1000, 500, 200)
        .unwrap();
    update_upstream_zone_stats(&mut manager, "test3-persistence_backend", "10.0.0.1:80", 120, 60, 1200, 600, 200)
        .unwrap();
    update_upstream_zone_stats(&mut manager, "test3-persistence_backend", "10.0.0.2:80", 80, 40, 800, 400, 200)
        .unwrap();

    let content1 =
        generate_vts_status_content(&manager, &cache, "test-hostname", "0.1.0", "1234567890");
    assert!(content1.contains("test3-persistence_backend"));

    let content2 =
        generate_vts_status_content(&manager, &cache, "test-hostname", "0.1.0", "1234567890");
    assert!(content2.contains("nginx_vts_upstream_requests_total"));

    let backend_zone = manager.get_upstream_zone("test3-persistence_backend");
    assert!(backend_zone.is_some(), "Backend zone should exist");

    let zone = backend_zone.unwrap();
    assert!(zone.servers.contains_key("10.0.0.1:80"), "Server 10.0.0.1:80 should exist");
    assert!(zone.servers.contains_key("10.0.0.2:80"), "Server 10.0.0.2:80 should exist");

    assert_eq!(zone.total_requests(), 3, "Total requests should be 3 (2 + 1)");
}

#[test]
fn test_empty_vts_stats() {
    let manager = VtsStatsManager::new();
    let cache = CacheStatsManager::new();
    let content =
        generate_vts_status_content(&manager, &cache, "test-hostname", "0.1.0", "1234567890");

    assert!(content.contains("# nginx-vts-rust"));
    assert!(content.contains("# VTS Status: Active"));
    assert!(content.contains("# Prometheus Metrics:"));

    assert!(content.contains("# HELP nginx_vts_server_requests_total Total number of requests"));
    assert!(content.contains("# TYPE nginx_vts_server_requests_total counter"));
    assert!(content.contains("# HELP nginx_vts_server_bytes_total Total bytes transferred"));
    assert!(content.contains("# TYPE nginx_vts_server_bytes_total counter"));
}

#[test]
fn test_cache_metrics_in_status_output() {
    let manager = VtsStatsManager::new();
    let mut cache = CacheStatsManager::new();

    update_cache_stats(&mut cache, "test_cache", "HIT").unwrap();
    update_cache_stats(&mut cache, "test_cache", "HIT").unwrap();
    update_cache_stats(&mut cache, "test_cache", "MISS").unwrap();
    update_cache_size(&mut cache, "test_cache", 1048576, 524288).unwrap();

    let content =
        generate_vts_status_content(&manager, &cache, "test-hostname", "0.1.0", "1234567890");

    assert!(content.contains("# HELP nginx_vts_cache_requests_total"));
    assert!(content.contains("# TYPE nginx_vts_cache_requests_total counter"));
    assert!(content.contains("nginx_vts_cache_requests_total{zone=\"test_cache\",status=\"hit\"} 2"));
    assert!(content.contains("nginx_vts_cache_requests_total{zone=\"test_cache\",status=\"miss\"} 1"));

    assert!(content.contains("# HELP nginx_vts_cache_size_bytes"));
    assert!(content.contains("# TYPE nginx_vts_cache_size_bytes gauge"));
    assert!(content.contains("nginx_vts_cache_size_bytes{zone=\"test_cache\",type=\"max\"} 1048576"));
    assert!(content.contains("nginx_vts_cache_size_bytes{zone=\"test_cache\",type=\"used\"} 524288"));

    assert!(content.contains("# HELP nginx_vts_cache_hit_ratio"));
    assert!(content.contains("# TYPE nginx_vts_cache_hit_ratio gauge"));
    assert!(content.contains("nginx_vts_cache_hit_ratio{zone=\"test_cache\"} 66.67"));
}

#[test]
fn test_empty_cache_metrics() {
    let manager = VtsStatsManager::new();
    let cache = CacheStatsManager::new();

    let content =
        generate_vts_status_content(&manager, &cache, "test-hostname", "0.1.0", "1234567890");

    assert!(content.contains("# HELP nginx_vts_cache_requests_total"));
    assert!(content.contains("# TYPE nginx_vts_cache_requests_total counter"));
    assert!(content.contains("# HELP nginx_vts_cache_size_bytes"));
    assert!(content.contains("# TYPE nginx_vts_cache_size_bytes gauge"));
}

#[test]
fn test_cache_integration_demo() {
    let manager = VtsStatsManager::new();
    let mut cache = CacheStatsManager::new();

    update_cache_stats(&mut cache, "cache_test", "MISS").unwrap();
    update_cache_size(&mut cache, "cache_test", 4194304, 512000).unwrap();

    update_cache_stats(&mut cache, "cache_test", "HIT").unwrap();
    update_cache_size(&mut cache, "cache_test", 4194304, 512000).unwrap();

    update_cache_stats(&mut cache, "cache_test", "HIT").unwrap();

    let content =
        generate_vts_status_content(&manager, &cache, "test-hostname", "0.1.0", "1234567890");

    assert!(content.contains("nginx_vts_cache_requests_total{zone=\"cache_test\",status=\"hit\"} 2"));
    assert!(content.contains("nginx_vts_cache_requests_total{zone=\"cache_test\",status=\"miss\"} 1"));
    assert!(content.contains("nginx_vts_cache_size_bytes{zone=\"cache_test\",type=\"max\"} 4194304"));
    assert!(content.contains("nginx_vts_cache_size_bytes{zone=\"cache_test\",type=\"used\"} 512000"));
    assert!(content.contains("nginx_vts_cache_hit_ratio{zone=\"cache_test\"} 66.67"));

    let cache_zones = nginx_vts_rust::get_all_cache_zones(&cache);
    let cache_test_zone = cache_zones.get("cache_test").unwrap();
    assert_eq!(cache_test_zone.name, "cache_test");
    assert_eq!(cache_test_zone.cache.total_requests(), 3);
    assert_eq!(cache_test_zone.cache.hit, 2);
    assert_eq!(cache_test_zone.cache.miss, 1);
}

#[test]
fn test_server_request_seconds_rendering() {
    // Stored milliseconds render as seconds divided by one thousand at six
    // decimal places.
    let mut manager = VtsStatsManager::new();
    let cache = CacheStatsManager::new();
    update_server_zone_stats(&mut manager, "z", 200, 0, 0, 1234).unwrap();
    let content = generate_vts_status_content(&manager, &cache, "h", "v", "t");
    assert!(content.contains("nginx_vts_server_request_seconds{zone=\"z\",type=\"avg\"} 1.234000"));
    assert!(content.contains("nginx_vts_server_request_seconds{zone=\"z\",type=\"min\"} 1.234000"));
    assert!(content.contains("nginx_vts_server_request_seconds{zone=\"z\",type=\"max\"} 1.234000"));
}

#[test]
fn test_upstream_zone_helper_consistency() {
    let zone = create_test_upstream_zone();
    let s1 = zone.servers.get("10.0.0.1:80").unwrap();
    assert_eq!(s1.request_time_total, 5000);
    assert_eq!(s1.avg_request_time(), 5000);
}
