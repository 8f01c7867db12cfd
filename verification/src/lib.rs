//! Virtual-host traffic status aggregation for a reverse-proxy process group.
//!
//! The crate collects live traffic counters (requests, bytes, status codes,
//! timings, cache outcomes) per named zone and renders them as Prometheus
//! exposition text.  The host server's request lifecycle is an external
//! collaborator: it calls into this crate with observed facts and pulls
//! formatted snapshots back out.

use vstd::prelude::*;

mod arith;
mod cache_stats;
mod config;
mod laws;
mod prometheus;
mod render;
mod shm;
mod stats;
mod table;
mod upstream_stats;
mod vts_node;

pub use arith::sat_add;
pub use arith::scaled_ratio;
pub use cache_stats::spec_cache_access;
pub use cache_stats::spec_cache_outcome;
pub use cache_stats::spec_count_outcome;
pub use cache_stats::spec_total_requests;
pub use cache_stats::spec_zone_sized;
pub use cache_stats::spec_zone_status;
pub use cache_stats::CacheOutcome;
pub use cache_stats::CacheStatsManager;
pub use cache_stats::CacheZoneStats;
pub use cache_stats::VtsCacheSizeStats;
pub use cache_stats::VtsCacheStats;
pub use config::VtsConfig;
pub use laws::lemma_avg_formula;
pub use laws::lemma_cache_total_counts_calls;
pub use laws::lemma_format_idempotent;
pub use laws::lemma_hit_ratio_formula;
pub use laws::lemma_requests_total_counts_calls;
pub use laws::lemma_requests_total_monotonic;
pub use laws::lemma_seconds_rendering;
pub use laws::lemma_utilization_formula;
pub use laws::spec_bucket_sum;
pub use laws::spec_fold_outcomes;
pub use laws::spec_fold_requests;
pub use prometheus::generate_vts_status_content;
pub use prometheus::spec_status_content;
pub use prometheus::PrometheusFormatter;
pub use shm::arena_map;
pub use shm::order_key;
pub use shm::spec_order_key;
pub use shm::VtsSharedContext;
pub use shm::VtsSharedNode;
pub use stats::spec_add_sample;
pub use stats::spec_count_status;
pub use stats::spec_member_to_upstream;
pub use stats::VtsConnectionStats;
pub use stats::VtsRequestTimes;
pub use stats::VtsResponseStats;
pub use stats::VtsServerStats;
pub use stats::VtsStats;
pub use stats::VtsUpstreamStats;
pub use table::StrTable;
pub use upstream_stats::UpstreamServerStats;
pub use upstream_stats::UpstreamZone;
pub use vts_node::member_list_matches;
pub use vts_node::member_recorded;
pub use vts_node::spec_member_update;
pub use vts_node::spec_node_to_server;
pub use vts_node::spec_node_update;
pub use vts_node::VtsNodeStats;
pub use vts_node::VtsStatsManager;

use vstd::string::StrSliceExecFns;

verus! {

/// The documented sane bound on inbound timings: callers supply
/// pre-normalized millisecond values, and anything above one day is
/// rejected as malformed rather than rescaled by guesswork.
pub const VTS_MAX_TIME_MS: u64 = 86400000;

/// Error taxonomy for the statistics core.
///
/// `InvalidArgument` covers malformed size strings and empty required
/// identities; `ResourceExhausted` covers arena allocation failure on a
/// new-identity insert into the shared store.  Both are returned
/// synchronously and never abort.
#[derive(Debug, Clone, Copy, PartialEq, Eq, Structural)]
pub enum VtsError {
    InvalidArgument,
    ResourceExhausted,
}

/// The value `calculate_time_diff_ms` computes, over unbounded integers,
/// capped at `u64::MAX`.
pub open spec fn spec_time_diff_ms(
    start_sec: u64,
    start_msec: u64,
    current_sec: u64,
    current_msec: u64,
) -> u64 {
    if current_msec >= start_msec {
        let sec_diff: int = if current_sec >= start_sec {
            current_sec - start_sec
        } else {
            0
        };
        let total: int = sec_diff * 1000 + (current_msec - start_msec);
        if total > u64::MAX {
            u64::MAX
        } else {
            total as u64
        }
    } else {
        if current_sec > start_sec {
            let total: int = (current_sec - (start_sec + 1)) * 1000 + current_msec + 1000
                - start_msec;
            if total > u64::MAX {
                u64::MAX
            } else if total < 0 {
                0
            } else {
                total as u64
            }
        } else {
            0
        }
    }
}

/// Elapsed milliseconds between a start instant and a current instant, each
/// given as whole seconds plus a millisecond part.  When the millisecond part
/// has to borrow from the seconds, the borrow happens only if a whole second
/// is available; otherwise the difference is clamped to zero.  The result
/// saturates at `u64::MAX` instead of overflowing.
pub fn calculate_time_diff_ms(
    start_sec: u64,
    start_msec: u64,
    current_sec: u64,
    current_msec: u64,
) -> (ms: u64)
    ensures
        ms == spec_time_diff_ms(start_sec, start_msec, current_sec, current_msec),
{
    if current_msec >= start_msec {
        let sec_diff: u64 = if current_sec >= start_sec {
            current_sec - start_sec
        } else {
            0
        };
        let msec_diff: u64 = current_msec - start_msec;
        let total: u128 = (sec_diff as u128) * 1000 + (msec_diff as u128);
        if total > u64::MAX as u128 {
            u64::MAX
        } else {
            total as u64
        }
    } else {
        if current_sec > start_sec {
            let sec_diff: u64 = current_sec - (start_sec + 1);
            let raised: u128 = (sec_diff as u128) * 1000 + (current_msec as u128) + 1000;
            if raised < start_msec as u128 {
                0
            } else {
                let total: u128 = raised - (start_msec as u128);
                if total > u64::MAX as u128 {
                    u64::MAX
                } else {
                    total as u64
                }
            }
        } else {
            0
        }
    }
}

/// Record one completed request against a server zone.  The zone identity
/// must be nonempty and the timing pre-normalized to at most
/// `VTS_MAX_TIME_MS` milliseconds; otherwise nothing is recorded and
/// `InvalidArgument` comes back.
pub fn update_server_zone_stats(
    manager: &mut VtsStatsManager,
    server_name: &str,
    status: u16,
    bytes_in: u64,
    bytes_out: u64,
    request_time: u64,
) -> (r: Result<(), VtsError>)
    requires
        old(manager).wf(),
    ensures
        final(manager).wf(),
        server_name@.len() == 0 || request_time > VTS_MAX_TIME_MS ==> r == Result::<
            (),
            VtsError,
        >::Err(VtsError::InvalidArgument) && *final(manager) == *old(manager),
        server_name@.len() > 0 && request_time <= VTS_MAX_TIME_MS ==> r is Ok && final(manager).server_map() == old(manager).server_map().insert(
            server_name@,
            spec_node_update(
                if old(manager).server_map().contains_key(server_name@) {
                    old(manager).server_map()[server_name@]
                } else {
                    VtsNodeStats::zero()
                },
                status,
                bytes_in,
                bytes_out,
                request_time,
            ),
        ) && final(manager).upstream_zones == old(manager).upstream_zones && final(manager).connections == old(manager).connections,
{
    if server_name.unicode_len() == 0 || request_time > VTS_MAX_TIME_MS {
        return Err(VtsError::InvalidArgument);
    }
    manager.update_server_stats(server_name, status, bytes_in, bytes_out, request_time);
    Ok(())
}

/// Record one finished upstream request against a group member.  Group
/// name and member address must be nonempty, and both timings
/// pre-normalized to at most `VTS_MAX_TIME_MS` milliseconds.
pub fn update_upstream_zone_stats(
    manager: &mut VtsStatsManager,
    upstream_name: &str,
    upstream_addr: &str,
    request_time: u64,
    upstream_response_time: u64,
    bytes_sent: u64,
    bytes_received: u64,
    status_code: u16,
) -> (r: Result<(), VtsError>)
    requires
        old(manager).wf(),
    ensures
        final(manager).wf(),
        upstream_name@.len() == 0 || upstream_addr@.len() == 0 || request_time > VTS_MAX_TIME_MS
            || upstream_response_time > VTS_MAX_TIME_MS ==> r == Result::<(), VtsError>::Err(
            VtsError::InvalidArgument,
        ) && *final(manager) == *old(manager),
        upstream_name@.len() > 0 && upstream_addr@.len() > 0 && request_time <= VTS_MAX_TIME_MS
            && upstream_response_time <= VTS_MAX_TIME_MS ==> r is Ok && final(manager).upstream_map().contains_key(upstream_name@) && final(manager).upstream_map() == old(
            manager,
        ).upstream_map().insert(
            upstream_name@,
            final(manager).upstream_map()[upstream_name@],
        ) && ({
            let z = final(manager).upstream_map()[upstream_name@];
            let before = if old(manager).upstream_map().contains_key(upstream_name@) {
                old(manager).upstream_map()[upstream_name@].servers_map()
            } else {
                Map::<Seq<char>, UpstreamServerStats>::empty()
            };
            z.name@ == upstream_name@ && member_recorded(
                before,
                z.servers_map(),
                upstream_addr@,
                request_time,
                upstream_response_time,
                bytes_sent,
                bytes_received,
                status_code,
            )
        }) && final(manager).stats == old(manager).stats && final(manager).connections == old(
            manager,
        ).connections,
{
    if upstream_name.unicode_len() == 0 || upstream_addr.unicode_len() == 0 || request_time
        > VTS_MAX_TIME_MS || upstream_response_time > VTS_MAX_TIME_MS {
        return Err(VtsError::InvalidArgument);
    }
    manager.update_upstream_stats(
        upstream_name,
        upstream_addr,
        request_time,
        upstream_response_time,
        bytes_sent,
        bytes_received,
        status_code,
    );
    Ok(())
}

/// Record one completed request against the shared cross-process store,
/// for identities merged across workers.  The identity must be nonempty
/// and the timing pre-normalized to at most `VTS_MAX_TIME_MS`
/// milliseconds; a new identity is refused with `ResourceExhausted` when
/// the arena is full, and nothing changes.
pub fn record_shared_request(
    store: &mut VtsSharedContext,
    zone_identity: &str,
    status: u16,
    bytes_in: u64,
    bytes_out: u64,
    request_time: u64,
) -> (r: Result<(), VtsError>)
    requires
        old(store).wf(),
    ensures
        final(store).wf(),
        final(store).spec_capacity() == old(store).spec_capacity(),
        zone_identity@.len() == 0 || request_time > VTS_MAX_TIME_MS ==> r == Result::<
            (),
            VtsError,
        >::Err(VtsError::InvalidArgument) && *final(store) == *old(store),
        zone_identity@.len() > 0 && request_time <= VTS_MAX_TIME_MS ==> {
            &&& old(store).as_map().contains_key(zone_identity@) ==> r is Ok && final(store).as_map() == old(store).as_map().insert(
                zone_identity@,
                spec_node_update(
                    old(store).as_map()[zone_identity@],
                    status,
                    bytes_in,
                    bytes_out,
                    request_time,
                ),
            )
            &&& !old(store).as_map().contains_key(zone_identity@) && old(store).arena().len()
                < old(store).spec_capacity() ==> r is Ok && final(store).as_map() == old(
                store,
            ).as_map().insert(
                zone_identity@,
                spec_node_update(VtsNodeStats::zero(), status, bytes_in, bytes_out, request_time),
            )
            &&& !old(store).as_map().contains_key(zone_identity@) && old(store).arena().len()
                >= old(store).spec_capacity() ==> r == Result::<(), VtsError>::Err(
                VtsError::ResourceExhausted,
            ) && *final(store) == *old(store)
        },
{
    if zone_identity.unicode_len() == 0 || request_time > VTS_MAX_TIME_MS {
        return Err(VtsError::InvalidArgument);
    }
    store.insert_or_update(zone_identity, status, bytes_in, bytes_out, request_time)
}

/// Overwrite the connection gauges and totals.
pub fn update_connection_stats(
    manager: &mut VtsStatsManager,
    active: u64,
    reading: u64,
    writing: u64,
    waiting: u64,
    accepted: u64,
    handled: u64,
)
    requires
        old(manager).wf(),
    ensures
        final(manager).wf(),
        final(manager).connections == (VtsConnectionStats {
            active,
            reading,
            writing,
            waiting,
            accepted,
            handled,
        }),
        final(manager).stats == old(manager).stats,
        final(manager).upstream_zones == old(manager).upstream_zones,
{
    manager.update_connection_stats(active, reading, writing, waiting, accepted, handled);
}

/// Record one cache access given as a status string; the zone identity
/// must be nonempty.  An unrecognized status string is the one accepted
/// silent no-op: the zone exists afterwards but no counter moved.
pub fn update_cache_stats(
    manager: &mut CacheStatsManager,
    zone_name: &str,
    cache_status: &str,
) -> (r: Result<(), VtsError>)
    requires
        old(manager).wf(),
    ensures
        final(manager).wf(),
        zone_name@.len() == 0 ==> r == Result::<(), VtsError>::Err(VtsError::InvalidArgument)
            && *final(manager) == *old(manager),
        zone_name@.len() > 0 && old(manager).zones().contains_key(zone_name@) ==> r is Ok
            && final(manager).zones() == old(manager).zones().insert(
            zone_name@,
            spec_zone_status(old(manager).zones()[zone_name@], cache_status@),
        ),
        zone_name@.len() > 0 && !old(manager).zones().contains_key(zone_name@) ==> r is Ok
            && exists|fresh: CacheZoneStats|
            #[trigger] fresh.is_fresh(zone_name@) && final(manager).zones() == old(
                manager,
            ).zones().insert(zone_name@, spec_zone_status(fresh, cache_status@)),
{
    if zone_name.unicode_len() == 0 {
        return Err(VtsError::InvalidArgument);
    }
    manager.update_cache_stats(zone_name, cache_status);
    Ok(())
}

/// Record one pre-classified cache access with its transferred bytes; the
/// zone identity must be nonempty.
pub fn record_cache_access(
    manager: &mut CacheStatsManager,
    cache_zone: &str,
    outcome: CacheOutcome,
    bytes_transferred: u64,
) -> (r: Result<(), VtsError>)
    requires
        old(manager).wf(),
    ensures
        final(manager).wf(),
        cache_zone@.len() == 0 ==> r == Result::<(), VtsError>::Err(VtsError::InvalidArgument)
            && *final(manager) == *old(manager),
        cache_zone@.len() > 0 && old(manager).zones().contains_key(cache_zone@) ==> r is Ok
            && final(manager).zones() == old(manager).zones().insert(
            cache_zone@,
            spec_cache_access(
                old(manager).zones()[cache_zone@],
                outcome,
                bytes_transferred,
            ),
        ),
        cache_zone@.len() > 0 && !old(manager).zones().contains_key(cache_zone@) ==> r is Ok
            && exists|fresh: CacheZoneStats|
            #[trigger] fresh.is_fresh(cache_zone@) && final(manager).zones() == old(
                manager,
            ).zones().insert(
                cache_zone@,
                spec_cache_access(fresh, outcome, bytes_transferred),
            ),
{
    if cache_zone.unicode_len() == 0 {
        return Err(VtsError::InvalidArgument);
    }
    manager.update_cache_access(cache_zone, outcome, bytes_transferred);
    Ok(())
}

/// Overwrite a cache zone's size gauges; the zone identity must be
/// nonempty.  `max_bytes` is static, `used_bytes` a point-in-time reading.
pub fn update_cache_size(
    manager: &mut CacheStatsManager,
    zone_name: &str,
    max_size: u64,
    used_size: u64,
) -> (r: Result<(), VtsError>)
    requires
        old(manager).wf(),
    ensures
        final(manager).wf(),
        zone_name@.len() == 0 ==> r == Result::<(), VtsError>::Err(VtsError::InvalidArgument)
            && *final(manager) == *old(manager),
        zone_name@.len() > 0 && old(manager).zones().contains_key(zone_name@) ==> r is Ok
            && final(manager).zones() == old(manager).zones().insert(
            zone_name@,
            spec_zone_sized(old(manager).zones()[zone_name@], max_size, used_size),
        ),
        zone_name@.len() > 0 && !old(manager).zones().contains_key(zone_name@) ==> r is Ok
            && exists|fresh: CacheZoneStats|
            #[trigger] fresh.is_fresh(zone_name@) && final(manager).zones() == old(
                manager,
            ).zones().insert(zone_name@, spec_zone_sized(fresh, max_size, used_size)),
{
    if zone_name.unicode_len() == 0 {
        return Err(VtsError::InvalidArgument);
    }
    manager.update_cache_size(zone_name, max_size, used_size);
    Ok(())
}

/// A value-equal copy of every cache zone's statistics.
pub fn get_all_cache_zones(manager: &CacheStatsManager) -> (r: StrTable<CacheZoneStats>)
    requires
        manager.wf(),
    ensures
        r.wf(),
        r.as_map() == manager.zones(),
        r.key_seq() == manager.cache_zones.key_seq(),
{
    manager.get_all_cache_zones()
}

/// Reset both traffic registries and seed the default upstream group with
/// one zeroed, available member, as the host configuration would at
/// startup.
pub fn initialize_upstream_zones_for_testing(manager: &mut VtsStatsManager)
    requires
        old(manager).wf(),
    ensures
        final(manager).wf(),
        final(manager).server_map() == Map::<Seq<char>, VtsNodeStats>::empty(),
        final(manager).upstream_map().dom() == Set::<Seq<char>>::empty().insert("backend"@),
        ({
            let z = final(manager).upstream_map()["backend"@];
            &&& z.name@ == "backend"@
            &&& z.servers_map().dom() == Set::<Seq<char>>::empty().insert("127.0.0.1:8080"@)
            &&& z.servers_map()["127.0.0.1:8080"@].is_fresh("127.0.0.1:8080"@)
        }),
{
    manager.stats.clear();
    manager.upstream_zones.clear();
    proof {
        assert(manager.wf());
    }
    let zone = manager.get_or_create_upstream_zone("backend");
    let _server = zone.get_or_create_server("127.0.0.1:8080");
    proof {
        assert(manager.upstream_map().dom() =~= Set::<Seq<char>>::empty().insert("backend"@));
        assert(manager.upstream_map()["backend"@].servers_map().dom() =~= Set::<
            Seq<char>,
        >::empty().insert("127.0.0.1:8080"@));
    }
}

/// What `parse_size_string` accepts: a digit character and its value.
pub open spec fn spec_is_digit(c: char) -> bool {
    48 <= c as int <= 57
}

pub open spec fn spec_digit_value(c: char) -> int {
    c as int - 48
}

pub open spec fn spec_all_digits(s: Seq<char>) -> bool {
    forall|i: int| 0 <= i < s.len() ==> spec_is_digit(s[i])
}

/// The number a digit string denotes.
pub open spec fn spec_digits_value(s: Seq<char>) -> int
    decreases s.len(),
{
    if s.len() == 0 {
        0
    } else {
        spec_digits_value(s.drop_last()) * 10 + spec_digit_value(s.last())
    }
}

/// A digit string denotes a non-negative number.
pub proof fn lemma_digits_value_nonneg(s: Seq<char>)
    requires
        spec_all_digits(s),
    ensures
        spec_digits_value(s) >= 0,
    decreases s.len(),
{
    if s.len() > 0 {
        assert forall|i: int| 0 <= i < s.drop_last().len() implies spec_is_digit(
            #[trigger] s.drop_last()[i],
        ) by {
            assert(s.drop_last()[i] == s[i]);
        }
        lemma_digits_value_nonneg(s.drop_last());
    }
}

/// Digits scaled by a unit: rejected when no digit is present, a
/// character is not a digit, or the product overflows the native
/// unsigned size type.
pub open spec fn spec_parse_scaled(digits: Seq<char>, mult: int) -> Option<usize> {
    if digits.len() == 0 {
        Option::None
    } else if !spec_all_digits(digits) {
        Option::None
    } else if spec_digits_value(digits) * mult > usize::MAX {
        Option::None
    } else {
        Option::Some((spec_digits_value(digits) * mult) as usize)
    }
}

/// The size a string denotes: a non-negative integer optionally suffixed
/// `k`/`K` (×1024), `m`/`M` (×1024²) or `g`/`G` (×1024³); anything else
/// is rejected.
pub open spec fn spec_parse_size(s: Seq<char>) -> Option<usize> {
    if s.len() == 0 {
        Option::None
    } else if spec_is_digit(s.last()) {
        spec_parse_scaled(s, 1)
    } else if s.last() == 'k' || s.last() == 'K' {
        spec_parse_scaled(s.drop_last(), 1024)
    } else if s.last() == 'm' || s.last() == 'M' {
        spec_parse_scaled(s.drop_last(), 1048576)
    } else if s.last() == 'g' || s.last() == 'G' {
        spec_parse_scaled(s.drop_last(), 1073741824)
    } else {
        Option::None
    }
}

/// Parse a startup size string for sizing the shared arena.
pub fn parse_size_string(size_str: &str) -> (r: Result<usize, VtsError>)
    ensures
        match r {
            Ok(v) => spec_parse_size(size_str@) == Option::Some(v),
            Err(e) => e == VtsError::InvalidArgument && spec_parse_size(size_str@)
                is None,
        },
{
    let n = size_str.unicode_len();
    if n == 0 {
        return Err(VtsError::InvalidArgument);
    }
    let last: u32 = size_str.get_char(n - 1) as u32;
    let digit_count: usize;
    let mult: usize;
    if 48 <= last && last <= 57 {
        digit_count = n;
        mult = 1;
    } else if last == 107 || last == 75 {
        digit_count = n - 1;
        mult = 1024;
    } else if last == 109 || last == 77 {
        digit_count = n - 1;
        mult = 1048576;
    } else if last == 103 || last == 71 {
        digit_count = n - 1;
        mult = 1073741824;
    } else {
        proof {
            assert(size_str@.last() as int == last);
        }
        return Err(VtsError::InvalidArgument);
    }
    let ghost digits = size_str@.take(digit_count as int);
    proof {
        if digit_count < n {
            assert(digits =~= size_str@.drop_last());
        } else {
            assert(digits =~= size_str@);
        }
    }
    if digit_count == 0 {
        return Err(VtsError::InvalidArgument);
    }
    proof {
        assert(spec_parse_size(size_str@) == spec_parse_scaled(digits, mult as int));
    }
    let mut value: u128 = 0;
    let mut too_big = false;
    let mut i: usize = 0;
    while i < digit_count
        invariant
            digit_count <= n,
            n == size_str@.len(),
            digits == size_str@.take(digit_count as int),
            spec_parse_size(size_str@) == spec_parse_scaled(digits, mult as int),
            i <= digit_count,
            spec_all_digits(size_str@.take(i as int)),
            !too_big ==> value == spec_digits_value(size_str@.take(i as int)) && value
                <= usize::MAX,
            too_big ==> spec_digits_value(size_str@.take(i as int)) > usize::MAX,
        decreases digit_count - i,
    {
        let c: u32 = size_str.get_char(i) as u32;
        if c < 48 || c > 57 {
            proof {
                assert(digits[i as int] == size_str@[i as int]);
                assert(!spec_is_digit(digits[i as int]));
            }
            return Err(VtsError::InvalidArgument);
        }
        let d: u128 = (c - 48) as u128;
        let ghost prev = size_str@.take(i as int);
        proof {
            assert(size_str@.take(i + 1).drop_last() =~= prev);
            assert(size_str@.take(i + 1).last() == size_str@[i as int]);
        }
        if !too_big {
            let nv: u128 = value * 10 + d;
            if nv > usize::MAX as u128 {
                too_big = true;
            } else {
                value = nv;
            }
        } else {
            proof {
                assert(spec_digits_value(size_str@.take(i + 1)) == spec_digits_value(prev) * 10
                    + spec_digit_value(size_str@[i as int]));
            }
        }
        i += 1;
    }
    proof {
        assert(size_str@.take(digit_count as int) == digits);
    }
    if too_big {
        proof {
            lemma_digits_value_nonneg(digits);
            assert(spec_digits_value(digits) * mult >= spec_digits_value(digits))
                by (nonlinear_arith)
                requires
                    mult >= 1,
                    spec_digits_value(digits) >= 0,
            ;
        }
        return Err(VtsError::InvalidArgument);
    }
    let base: usize = value as usize;
    match base.checked_mul(mult) {
        Some(total) => Ok(total),
        None => Err(VtsError::InvalidArgument),
    }
}

} // verus!
