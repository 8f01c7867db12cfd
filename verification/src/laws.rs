//! General properties of the statistics core, stated and proved once.
//!
//! Each lemma here is a law the library guarantees, written against the
//! same spec functions the executable contracts use.

use crate::arith::scaled_ratio;
use crate::cache_stats::spec_count_outcome;
use crate::cache_stats::spec_total_requests;
use crate::cache_stats::CacheOutcome;
use crate::cache_stats::CacheStatsManager;
use crate::cache_stats::VtsCacheSizeStats;
use crate::cache_stats::VtsCacheStats;
use crate::prometheus::spec_status_content;
use crate::render::spec_dec;
use crate::render::spec_dec_width;
use crate::render::spec_seconds6;
use crate::stats::VtsRequestTimes;
use crate::vts_node::spec_node_update;
use crate::vts_node::VtsNodeStats;
use crate::vts_node::VtsStatsManager;
use vstd::prelude::*;

verus! {

/// One recorded request per element of `evs`, folded left to right into a
/// zone's counters: `(status, bytes_in, bytes_out, request_time_ms)`.
pub open spec fn spec_fold_requests(
    s: VtsNodeStats,
    evs: Seq<(u16, u64, u64, u64)>,
) -> VtsNodeStats
    decreases evs.len(),
{
    if evs.len() == 0 {
        s
    } else {
        spec_node_update(
            spec_fold_requests(s, evs.drop_last()),
            evs.last().0,
            evs.last().1,
            evs.last().2,
            evs.last().3,
        )
    }
}

/// After any sequence of recorded requests the request counter equals the
/// starting count plus the number of calls, as long as that sum fits; in
/// particular, `N` calls against a fresh zone leave `requests == N`.  The
/// counter is cleared only by an explicit reset.
pub proof fn lemma_requests_total_counts_calls(s: VtsNodeStats, evs: Seq<(u16, u64, u64, u64)>)
    requires
        s.requests + evs.len() <= u64::MAX,
    ensures
        spec_fold_requests(s, evs).requests == s.requests + evs.len(),
    decreases evs.len(),
{
    if evs.len() > 0 {
        lemma_requests_total_counts_calls(s, evs.drop_last());
    }
}

/// A recorded request never decreases the request counter: the counter is
/// monotonic between resets.
pub proof fn lemma_requests_total_monotonic(
    s: VtsNodeStats,
    status: u16,
    bytes_in: u64,
    bytes_out: u64,
    request_time: u64,
)
    ensures
        spec_node_update(s, status, bytes_in, bytes_out, request_time).requests >= s.requests,
{
}

/// The exact sum of a cache zone's eight outcome buckets, unbounded.
pub open spec fn spec_bucket_sum(c: VtsCacheStats) -> int {
    c.hit + c.miss + c.bypass + c.expired + c.stale + c.updating + c.revalidated + c.scarce
}

/// One counted outcome per element of `os`, folded left to right.
pub open spec fn spec_fold_outcomes(c: VtsCacheStats, os: Seq<CacheOutcome>) -> VtsCacheStats
    decreases os.len(),
{
    if os.len() == 0 {
        c
    } else {
        spec_count_outcome(spec_fold_outcomes(c, os.drop_last()), os.last())
    }
}

/// Counting outcomes moves exactly one bucket per call — no double count,
/// no drop: after any sequence of calls the sum of the eight buckets
/// equals the starting sum plus the number of calls, as long as that sum
/// fits, and the reported total equals it.
pub proof fn lemma_cache_total_counts_calls(c: VtsCacheStats, os: Seq<CacheOutcome>)
    requires
        spec_bucket_sum(c) + os.len() <= u64::MAX,
    ensures
        spec_bucket_sum(spec_fold_outcomes(c, os)) == spec_bucket_sum(c) + os.len(),
        spec_total_requests(spec_fold_outcomes(c, os)) == spec_bucket_sum(c) + os.len(),
    decreases os.len(),
{
    if os.len() > 0 {
        lemma_cache_total_counts_calls(c, os.drop_last());
    }
}

/// The hit ratio is exactly `100 * hit / total` in hundredths of a
/// percent, rounded half up, and `0` when the total is `0`.
pub proof fn lemma_hit_ratio_formula(c: VtsCacheStats)
    ensures
        spec_total_requests(c) == 0 ==> scaled_ratio(c.hit, spec_total_requests(c), 10000) == 0,
        spec_total_requests(c) > 0 ==> scaled_ratio(c.hit, spec_total_requests(c), 10000) == (
        c.hit * 10000 + spec_total_requests(c) / 2) / (spec_total_requests(c) as int),
{
    let total = spec_total_requests(c);
    if total > 0 {
        assert(c.hit <= total);
        assert((c.hit * 10000 + total / 2) / (total as int) <= 10000) by (nonlinear_arith)
            requires
                0 < total <= u64::MAX,
                0 <= c.hit <= total,
        ;
    }
}

/// Utilization is exactly `100 * used / max` in hundredths of a percent,
/// rounded half up and clamped, and `0` when the maximum size is `0`.
pub proof fn lemma_utilization_formula(s: VtsCacheSizeStats)
    ensures
        s.max_size == 0 ==> scaled_ratio(s.used_size, s.max_size, 10000) == 0,
        s.max_size > 0 ==> scaled_ratio(s.used_size, s.max_size, 10000) == ({
            let q = (s.used_size * 10000 + s.max_size / 2) / (s.max_size as int);
            if q > u64::MAX {
                u64::MAX
            } else {
                q as u64
            }
        }),
{
}

/// The average request time is exactly `sum / count` when `count > 0`, in
/// hundredths of a millisecond, rounded half up and clamped; `0` when no
/// sample exists.
pub proof fn lemma_avg_formula(t: VtsRequestTimes)
    ensures
        t.count == 0 ==> scaled_ratio(t.total, t.count, 100) == 0,
        t.count > 0 ==> scaled_ratio(t.total, t.count, 100) == ({
            let q = (t.total * 100 + t.count / 2) / (t.count as int);
            if q > u64::MAX {
                u64::MAX
            } else {
                q as u64
            }
        }),
{
}

/// The formatter renders a stored millisecond value as seconds divided by
/// one thousand at six decimal places: whole seconds, a point, then the
/// microsecond remainder zero-padded to six digits.
pub proof fn lemma_seconds_rendering(ms: u64)
    requires
        ms * 1000 <= u64::MAX,
    ensures
        scaled_ratio(ms, 1, 1000) == ms * 1000,
        spec_seconds6((ms * 1000) as u64) == spec_dec(ms as int / 1000) + seq!['.']
            + spec_dec_width((ms as int % 1000) * 1000, 6),
{
    let q = ms as int / 1000;
    let r = ms as int % 1000;
    assert(ms * 1000 == 1000000 * q + 1000 * r) by (nonlinear_arith)
        requires
            ms == 1000 * q + r,
    ;
    assert((1000000 * q + 1000 * r) / 1000000 == q) by (nonlinear_arith)
        requires
            0 <= r < 1000,
            0 <= q,
    ;
    assert((1000000 * q + 1000 * r) % 1000000 == 1000 * r) by (nonlinear_arith)
        requires
            0 <= r < 1000,
            0 <= q,
    ;
}

/// Formatting is idempotent: any two renderings that meet the status
/// content contract for the same snapshot arguments are byte-identical.
pub proof fn lemma_format_idempotent(
    r1: Seq<char>,
    r2: Seq<char>,
    hostname: Seq<char>,
    version: Seq<char>,
    current_time: Seq<char>,
    manager: VtsStatsManager,
    cache: CacheStatsManager,
)
    requires
        r1 == spec_status_content(hostname, version, current_time, manager, cache),
        r2 == spec_status_content(hostname, version, current_time, manager, cache),
    ensures
        r1 == r2,
{
}

} // verus!
