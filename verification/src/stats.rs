//! Snapshot data structures for the statistics core.
//!
//! These types carry a copied-out view of the live registries for
//! formatting.  All timings are whole milliseconds; derived seconds are
//! produced only at formatting time.  The minimum request time carries an
//! explicit "no sample yet" flag so that a genuine zero-duration sample is
//! never confused with "unset".

use crate::arith::add_sat;
use crate::arith::sat_add;
use crate::cache_stats::VtsCacheStats;
use crate::table::StrTable;
use vstd::prelude::*;

verus! {

#[derive(Debug, Clone, Copy, PartialEq, Eq, Structural)]
pub struct VtsResponseStats {
    pub status_1xx: u64,
    pub status_2xx: u64,
    pub status_3xx: u64,
    pub status_4xx: u64,
    pub status_5xx: u64,
}

impl VtsResponseStats {
    pub open spec fn zero() -> VtsResponseStats {
        VtsResponseStats {
            status_1xx: 0,
            status_2xx: 0,
            status_3xx: 0,
            status_4xx: 0,
            status_5xx: 0,
        }
    }

    pub fn new() -> (r: VtsResponseStats)
        ensures
            r == VtsResponseStats::zero(),
    {
        VtsResponseStats { status_1xx: 0, status_2xx: 0, status_3xx: 0, status_4xx: 0, status_5xx: 0 }
    }
}

/// One histogram bucket is incremented per classified response; a status
/// code outside 100..=599 touches no bucket.
pub open spec fn spec_count_status(r: VtsResponseStats, status_code: u16) -> VtsResponseStats {
    if 100 <= status_code <= 199 {
        VtsResponseStats { status_1xx: sat_add(r.status_1xx, 1), ..r }
    } else if 200 <= status_code <= 299 {
        VtsResponseStats { status_2xx: sat_add(r.status_2xx, 1), ..r }
    } else if 300 <= status_code <= 399 {
        VtsResponseStats { status_3xx: sat_add(r.status_3xx, 1), ..r }
    } else if 400 <= status_code <= 499 {
        VtsResponseStats { status_4xx: sat_add(r.status_4xx, 1), ..r }
    } else if 500 <= status_code <= 599 {
        VtsResponseStats { status_5xx: sat_add(r.status_5xx, 1), ..r }
    } else {
        r
    }
}

pub fn count_status(r: &mut VtsResponseStats, status_code: u16)
    ensures
        *final(r) == spec_count_status(*old(r), status_code),
{
    if 100 <= status_code && status_code <= 199 {
        r.status_1xx = add_sat(r.status_1xx, 1);
    } else if 200 <= status_code && status_code <= 299 {
        r.status_2xx = add_sat(r.status_2xx, 1);
    } else if 300 <= status_code && status_code <= 399 {
        r.status_3xx = add_sat(r.status_3xx, 1);
    } else if 400 <= status_code && status_code <= 499 {
        r.status_4xx = add_sat(r.status_4xx, 1);
    } else if 500 <= status_code && status_code <= 599 {
        r.status_5xx = add_sat(r.status_5xx, 1);
    }
}

/// Request-time aggregate in milliseconds: sum, sample count, minimum and
/// maximum, with an explicit flag saying whether a minimum exists yet.
#[derive(Debug, Clone, Copy, PartialEq, Eq, Structural)]
pub struct VtsRequestTimes {
    pub total: u64,
    pub min: u64,
    pub max: u64,
    pub count: u64,
    pub min_set: bool,
}

impl VtsRequestTimes {
    pub open spec fn zero() -> VtsRequestTimes {
        VtsRequestTimes { total: 0, min: 0, max: 0, count: 0, min_set: false }
    }

    pub fn new() -> (r: VtsRequestTimes)
        ensures
            r == VtsRequestTimes::zero(),
    {
        VtsRequestTimes { total: 0, min: 0, max: 0, count: 0, min_set: false }
    }
}

/// One millisecond sample added to an aggregate.  The maximum is updated
/// unconditionally; the minimum only through the `min_set` flag, never
/// through a zero sentinel.
pub open spec fn spec_add_sample(t: VtsRequestTimes, ms: u64) -> VtsRequestTimes {
    VtsRequestTimes {
        total: sat_add(t.total, ms),
        count: sat_add(t.count, 1),
        max: if ms > t.max {
            ms
        } else {
            t.max
        },
        min: if !t.min_set || ms < t.min {
            ms
        } else {
            t.min
        },
        min_set: true,
    }
}

pub fn add_sample(t: &mut VtsRequestTimes, ms: u64)
    ensures
        *final(t) == spec_add_sample(*old(t), ms),
{
    t.total = add_sat(t.total, ms);
    t.count = add_sat(t.count, 1);
    if ms > t.max {
        t.max = ms;
    }
    if !t.min_set || ms < t.min {
        t.min = ms;
    }
    t.min_set = true;
}

/// Snapshot of one server zone.
#[derive(Debug, Clone, Copy, PartialEq, Eq, Structural)]
pub struct VtsServerStats {
    pub requests: u64,
    pub bytes_in: u64,
    pub bytes_out: u64,
    pub responses: VtsResponseStats,
    pub request_times: VtsRequestTimes,
}

impl VtsServerStats {
    pub open spec fn zero() -> VtsServerStats {
        VtsServerStats {
            requests: 0,
            bytes_in: 0,
            bytes_out: 0,
            responses: VtsResponseStats::zero(),
            request_times: VtsRequestTimes::zero(),
        }
    }

    pub fn new() -> (r: VtsServerStats)
        ensures
            r == VtsServerStats::zero(),
    {
        VtsServerStats {
            requests: 0,
            bytes_in: 0,
            bytes_out: 0,
            responses: VtsResponseStats::new(),
            request_times: VtsRequestTimes::new(),
        }
    }

    /// One completed request folded into the zone: the request and byte
    /// counters always move; the histogram moves only for a classified
    /// status; the timing aggregate takes the millisecond sample.
    pub open spec fn spec_update_request(
        s: VtsServerStats,
        status: u16,
        bytes_in: u64,
        bytes_out: u64,
        request_time: u64,
    ) -> VtsServerStats {
        VtsServerStats {
            requests: sat_add(s.requests, 1),
            bytes_in: sat_add(s.bytes_in, bytes_in),
            bytes_out: sat_add(s.bytes_out, bytes_out),
            responses: spec_count_status(s.responses, status),
            request_times: spec_add_sample(s.request_times, request_time),
        }
    }

    pub fn update_request(&mut self, status: u16, bytes_in: u64, bytes_out: u64, request_time: u64)
        ensures
            *final(self) == VtsServerStats::spec_update_request(
                *old(self),
                status,
                bytes_in,
                bytes_out,
                request_time,
            ),
    {
        self.requests = add_sat(self.requests, 1);
        self.bytes_in = add_sat(self.bytes_in, bytes_in);
        self.bytes_out = add_sat(self.bytes_out, bytes_out);
        count_status(&mut self.responses, status);
        add_sample(&mut self.request_times, request_time);
    }
}

/// Snapshot of one upstream member, as carried in a full snapshot.
#[derive(Debug, Clone)]
pub struct VtsUpstreamStats {
    pub server: String,
    pub requests: u64,
    pub responses: VtsResponseStats,
    /// The upstream-only response-time aggregate; the snapshot keeps its
    /// sum and sample count, with no minimum or maximum tracked.
    pub response_times: VtsRequestTimes,
    pub weight: u32,
    pub max_fails: u32,
    pub fail_timeout: u32,
    pub backup: bool,
    pub down: bool,
}

/// The snapshot form of one upstream member's counters.
pub open spec fn spec_member_to_upstream(s: crate::upstream_stats::UpstreamServerStats) -> VtsUpstreamStats {
    VtsUpstreamStats {
        server: s.server,
        requests: s.request_counter,
        responses: s.responses,
        response_times: VtsRequestTimes {
            total: s.response_time_total,
            min: 0,
            max: 0,
            count: s.response_time_counter,
            min_set: false,
        },
        weight: s.weight,
        max_fails: s.max_fails,
        fail_timeout: s.fail_timeout,
        backup: s.backup,
        down: s.down,
    }
}

/// Convert one upstream member's counters to snapshot form.
pub fn member_to_upstream(s: &crate::upstream_stats::UpstreamServerStats) -> (r: VtsUpstreamStats)
    ensures
        r == spec_member_to_upstream(*s),
{
    VtsUpstreamStats {
        server: s.server.clone(),
        requests: s.request_counter,
        responses: s.responses,
        response_times: VtsRequestTimes {
            total: s.response_time_total,
            min: 0,
            max: 0,
            count: s.response_time_counter,
            min_set: false,
        },
        weight: s.weight,
        max_fails: s.max_fails,
        fail_timeout: s.fail_timeout,
        backup: s.backup,
        down: s.down,
    }
}

/// Connection gauges and totals reported by the host server.
#[derive(Debug, Clone, Copy, PartialEq, Eq, Structural)]
pub struct VtsConnectionStats {
    pub active: u64,
    pub reading: u64,
    pub writing: u64,
    pub waiting: u64,
    pub accepted: u64,
    pub handled: u64,
}

impl VtsConnectionStats {
    pub open spec fn zero() -> VtsConnectionStats {
        VtsConnectionStats { active: 0, reading: 0, writing: 0, waiting: 0, accepted: 0, handled: 0 }
    }

    pub fn new() -> (r: VtsConnectionStats)
        ensures
            r == VtsConnectionStats::zero(),
    {
        VtsConnectionStats { active: 0, reading: 0, writing: 0, waiting: 0, accepted: 0, handled: 0 }
    }
}

/// A full copied-out snapshot: host identification plus every zone map.
/// It is consistent per key but not atomically consistent across maps.
pub struct VtsStats {
    pub hostname: String,
    pub version: String,
    pub timestamp: u64,
    pub load_timestamp: u64,
    pub connections: VtsConnectionStats,
    pub server_zones: StrTable<VtsServerStats>,
    pub upstream_zones: StrTable<Vec<VtsUpstreamStats>>,
    pub cache_zones: StrTable<VtsCacheStats>,
}

impl VtsStats {
    pub open spec fn wf(self) -> bool {
        &&& self.server_zones.wf()
        &&& self.upstream_zones.wf()
        &&& self.cache_zones.wf()
    }

    pub fn new(hostname: String, version: String, timestamp: u64) -> (r: VtsStats)
        ensures
            r.wf(),
            r.hostname == hostname,
            r.version == version,
            r.timestamp == timestamp,
            r.load_timestamp == timestamp,
            r.connections == VtsConnectionStats::zero(),
            r.server_zones.as_map() == Map::<Seq<char>, VtsServerStats>::empty(),
            r.upstream_zones.as_map() == Map::<Seq<char>, Vec<VtsUpstreamStats>>::empty(),
            r.cache_zones.as_map() == Map::<Seq<char>, VtsCacheStats>::empty(),
    {
        VtsStats {
            hostname,
            version,
            timestamp,
            load_timestamp: timestamp,
            connections: VtsConnectionStats::new(),
            server_zones: StrTable::new(),
            upstream_zones: StrTable::new(),
            cache_zones: StrTable::new(),
        }
    }
}

impl Default for VtsResponseStats {
    fn default() -> (r: VtsResponseStats)
        ensures
            r == VtsResponseStats::zero(),
    {
        VtsResponseStats::new()
    }
}

impl Default for VtsRequestTimes {
    fn default() -> (r: VtsRequestTimes)
        ensures
            r == VtsRequestTimes::zero(),
    {
        VtsRequestTimes::new()
    }
}

impl Default for VtsConnectionStats {
    fn default() -> (r: VtsConnectionStats)
        ensures
            r == VtsConnectionStats::zero(),
    {
        VtsConnectionStats::new()
    }
}

impl Default for VtsServerStats {
    fn default() -> (r: VtsServerStats)
        ensures
            r == VtsServerStats::zero(),
    {
        VtsServerStats::new()
    }
}

} // verus!
