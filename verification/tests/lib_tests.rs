// Crate-level helpers: the size-string parser, the elapsed-time helper and
// the configuration defaults.

use nginx_vts_rust::calculate_time_diff_ms;
use nginx_vts_rust::parse_size_string;
use nginx_vts_rust::VtsConfig;
use nginx_vts_rust::VtsError;

#[test]
fn test_parse_size_string() {
    assert_eq!(parse_size_string("1024"), Ok(1024));
    assert_eq!(parse_size_string("512"), Ok(512));

    assert_eq!(parse_size_string("1k"), Ok(1024));
    assert_eq!(parse_size_string("1K"), Ok(1024));
    assert_eq!(parse_size_string("10k"), Ok(10240));

    assert_eq!(parse_size_string("1m"), Ok(1024 * 1024));
    assert_eq!(parse_size_string("1M"), Ok(1024 * 1024));
    assert_eq!(parse_size_string("10m"), Ok(10 * 1024 * 1024));

    assert_eq!(parse_size_string("1g"), Ok(1024 * 1024 * 1024));
    assert_eq!(parse_size_string("1G"), Ok(1024 * 1024 * 1024));

    assert!(parse_size_string("").is_err());
    assert!(parse_size_string("abc").is_err());
    assert!(parse_size_string("10x").is_err());
    assert!(parse_size_string("k").is_err());
}

#[test]
fn test_parse_size_string_edge_cases() {
    assert_eq!(parse_size_string("0"), Ok(0));
    assert_eq!(parse_size_string("0k"), Ok(0));
    // A non-digit in the middle is rejected.
    assert!(parse_size_string("1a0").is_err());
    // Whitespace is not accepted anywhere.
    assert!(parse_size_string(" 10").is_err());
    assert!(parse_size_string("10 ").is_err());
    // An overflowing multiplication is rejected, not wrapped.
    assert!(parse_size_string("18446744073709551615g").is_err());
    assert!(parse_size_string("99999999999999999999999").is_err());
    assert_eq!(parse_size_string("18446744073709551615"), Ok(u64::MAX as usize));
}

#[test]
fn test_calculate_time_diff_basic() {
    // Same second, forward millisecond difference.
    assert_eq!(calculate_time_diff_ms(1000, 500, 1000, 501), 1);
    // Crossing a second boundary borrows from the seconds.
    assert_eq!(calculate_time_diff_ms(1000, 999, 1001, 0), 1);
    // Several seconds later.
    assert_eq!(calculate_time_diff_ms(1000, 500, 1002, 510), 2010);
    // Borrow case with the millisecond part below the start's.
    assert_eq!(calculate_time_diff_ms(1000, 900, 1001, 100), 200);
    // A clock that went backwards clamps to zero.
    assert_eq!(calculate_time_diff_ms(1000, 500, 999, 400), 0);
    assert_eq!(calculate_time_diff_ms(1000, 500, 1000, 400), 0);
}

#[test]
fn test_vts_config_defaults() {
    let config = VtsConfig::new();
    assert!(!config.enable_status);
    assert!(config.enable_zone);
    assert!(!config.enable_upstream_stats);
    assert_eq!(VtsConfig::default(), config);
}

#[test]
fn test_error_values_distinct() {
    assert_ne!(VtsError::InvalidArgument, VtsError::ResourceExhausted);
}

#[test]
fn test_server_stats_snapshot_update() {
    let mut s = nginx_vts_rust::VtsServerStats::default();
    s.update_request(200, 10, 20, 5);
    s.update_request(302, 1, 2, 15);
    assert_eq!(s.requests, 2);
    assert_eq!(s.bytes_in, 11);
    assert_eq!(s.bytes_out, 22);
    assert_eq!(s.responses.status_2xx, 1);
    assert_eq!(s.responses.status_3xx, 1);
    assert_eq!(s.request_times.total, 20);
    assert_eq!(s.request_times.count, 2);
    assert_eq!(s.request_times.min, 5);
    assert_eq!(s.request_times.max, 15);
    assert!(s.request_times.min_set);
}
