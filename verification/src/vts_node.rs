//! Server-zone counters and the central statistics registry.
//!
//! `VtsNodeStats` is the per-zone counter block; `VtsStatsManager` holds the
//! three independent registries (server zones, upstream zones, connection
//! gauges).  The registries grow on first access and are cleared only by an
//! explicit reset.  The manager is an explicit handle constructed once at
//! startup and threaded through every call site; mutual exclusion around it
//! is the embedding's concern.

use crate::arith::add_sat;
use crate::arith::ratio_scaled;
use crate::arith::sat_add;
use crate::arith::scaled_ratio;
use crate::cache_stats::CacheStatsManager;
use crate::cache_stats::VtsCacheStats;
use crate::stats::member_to_upstream;
use crate::stats::spec_count_status;
use crate::stats::spec_member_to_upstream;
use crate::stats::VtsStats;
use crate::stats::VtsUpstreamStats;
use crate::stats::VtsConnectionStats;
use crate::stats::VtsRequestTimes;
use crate::stats::VtsResponseStats;
use crate::stats::VtsServerStats;
use crate::table::StrTable;
use crate::upstream_stats::UpstreamServerStats;
use crate::upstream_stats::UpstreamZone;
use vstd::prelude::*;

verus! {

/// Traffic counters for one server zone.
#[derive(Debug, Clone, Copy, PartialEq, Eq, Structural)]
pub struct VtsNodeStats {
    /// Total number of requests; may exceed the sum of the histogram
    /// buckets, since an unclassifiable status still counts as a request.
    pub requests: u64,
    /// Total bytes received from clients.
    pub bytes_in: u64,
    /// Total bytes sent to clients.
    pub bytes_out: u64,
    pub status_1xx: u64,
    pub status_2xx: u64,
    pub status_3xx: u64,
    pub status_4xx: u64,
    pub status_5xx: u64,
    /// Sum of request times, milliseconds.
    pub request_time_total: u64,
    /// Smallest request time seen, meaningful only when `request_time_min_set`.
    pub request_time_min: u64,
    /// Largest request time seen.
    pub request_time_max: u64,
    /// Whether any request-time sample was recorded yet; a genuine
    /// zero-duration sample is not confusable with "unset".
    pub request_time_min_set: bool,
}

/// One completed request folded into a zone's counters.
pub open spec fn spec_node_update(
    s: VtsNodeStats,
    status: u16,
    bytes_in: u64,
    bytes_out: u64,
    request_time: u64,
) -> VtsNodeStats {
    VtsNodeStats {
        requests: sat_add(s.requests, 1),
        bytes_in: sat_add(s.bytes_in, bytes_in),
        bytes_out: sat_add(s.bytes_out, bytes_out),
        status_1xx: if 100 <= status <= 199 {
            sat_add(s.status_1xx, 1)
        } else {
            s.status_1xx
        },
        status_2xx: if 200 <= status <= 299 {
            sat_add(s.status_2xx, 1)
        } else {
            s.status_2xx
        },
        status_3xx: if 300 <= status <= 399 {
            sat_add(s.status_3xx, 1)
        } else {
            s.status_3xx
        },
        status_4xx: if 400 <= status <= 499 {
            sat_add(s.status_4xx, 1)
        } else {
            s.status_4xx
        },
        status_5xx: if 500 <= status <= 599 {
            sat_add(s.status_5xx, 1)
        } else {
            s.status_5xx
        },
        request_time_total: sat_add(s.request_time_total, request_time),
        request_time_min: if !s.request_time_min_set || request_time < s.request_time_min {
            request_time
        } else {
            s.request_time_min
        },
        request_time_max: if request_time > s.request_time_max {
            request_time
        } else {
            s.request_time_max
        },
        request_time_min_set: true,
    }
}

impl VtsNodeStats {
    pub open spec fn zero() -> VtsNodeStats {
        VtsNodeStats {
            requests: 0,
            bytes_in: 0,
            bytes_out: 0,
            status_1xx: 0,
            status_2xx: 0,
            status_3xx: 0,
            status_4xx: 0,
            status_5xx: 0,
            request_time_total: 0,
            request_time_min: 0,
            request_time_max: 0,
            request_time_min_set: false,
        }
    }

    /// A zone with zero statistics.
    pub fn new() -> (r: VtsNodeStats)
        ensures
            r == VtsNodeStats::zero(),
    {
        VtsNodeStats {
            requests: 0,
            bytes_in: 0,
            bytes_out: 0,
            status_1xx: 0,
            status_2xx: 0,
            status_3xx: 0,
            status_4xx: 0,
            status_5xx: 0,
            request_time_total: 0,
            request_time_min: 0,
            request_time_max: 0,
            request_time_min_set: false,
        }
    }

    /// Fold one completed request into the counters: request and byte
    /// totals move unconditionally, exactly one histogram bucket moves when
    /// the status lies in 100..=599, the timing aggregate takes the sample.
    pub fn update_request(&mut self, status: u16, bytes_in: u64, bytes_out: u64, request_time: u64)
        ensures
            *final(self) == spec_node_update(*old(self), status, bytes_in, bytes_out, request_time),
    {
        self.requests = add_sat(self.requests, 1);
        self.bytes_in = add_sat(self.bytes_in, bytes_in);
        self.bytes_out = add_sat(self.bytes_out, bytes_out);
        self.request_time_total = add_sat(self.request_time_total, request_time);
        if request_time > self.request_time_max {
            self.request_time_max = request_time;
        }
        if !self.request_time_min_set || request_time < self.request_time_min {
            self.request_time_min = request_time;
        }
        self.request_time_min_set = true;
        if 100 <= status && status <= 199 {
            self.status_1xx = add_sat(self.status_1xx, 1);
        } else if 200 <= status && status <= 299 {
            self.status_2xx = add_sat(self.status_2xx, 1);
        } else if 300 <= status && status <= 399 {
            self.status_3xx = add_sat(self.status_3xx, 1);
        } else if 400 <= status && status <= 499 {
            self.status_4xx = add_sat(self.status_4xx, 1);
        } else if 500 <= status && status <= 599 {
            self.status_5xx = add_sat(self.status_5xx, 1);
        }
    }

    /// Average request time in hundredths of a millisecond, rounded half
    /// up; `0` when no request was recorded.
    pub fn avg_request_time(&self) -> (r: u64)
        ensures
            r == scaled_ratio(self.request_time_total, self.requests, 100),
    {
        ratio_scaled(self.request_time_total, self.requests, 100)
    }
}

/// One sample folded into an upstream member's counters: the request and
/// byte counters move, the histogram classifies the status, and both timing
/// aggregates take their millisecond sample.
pub open spec fn spec_member_update(
    s: UpstreamServerStats,
    request_time: u64,
    upstream_response_time: u64,
    bytes_sent: u64,
    bytes_received: u64,
    status_code: u16,
) -> UpstreamServerStats {
    let s1 = UpstreamServerStats {
        request_counter: sat_add(s.request_counter, 1),
        in_bytes: sat_add(s.in_bytes, bytes_received),
        out_bytes: sat_add(s.out_bytes, bytes_sent),
        responses: spec_count_status(s.responses, status_code),
        ..s
    };
    UpstreamServerStats::spec_update_timing(
        s1,
        Some(request_time),
        Some(upstream_response_time),
    )
}

/// How one recorded sample changes a member map: the member is created
/// zeroed on first use, then updated; every other member is untouched.
pub open spec fn member_recorded(
    before: Map<Seq<char>, UpstreamServerStats>,
    after: Map<Seq<char>, UpstreamServerStats>,
    addr: Seq<char>,
    request_time: u64,
    upstream_response_time: u64,
    bytes_sent: u64,
    bytes_received: u64,
    status_code: u16,
) -> bool {
    if before.contains_key(addr) {
        after == before.insert(
            addr,
            spec_member_update(
                before[addr],
                request_time,
                upstream_response_time,
                bytes_sent,
                bytes_received,
                status_code,
            ),
        )
    } else {
        exists|fresh: UpstreamServerStats|
            #[trigger] fresh.is_fresh(addr) && after == before.insert(
                addr,
                spec_member_update(
                    fresh,
                    request_time,
                    upstream_response_time,
                    bytes_sent,
                    bytes_received,
                    status_code,
                ),
            )
    }
}

/// The central registry: three independent zone maps behind one handle.
#[derive(Debug)]
pub struct VtsStatsManager {
    /// Server-zone counters keyed by virtual-host identity.
    pub stats: StrTable<VtsNodeStats>,
    /// Upstream zones keyed by upstream group name.
    pub upstream_zones: StrTable<UpstreamZone>,
    /// Connection gauges and totals.
    pub connections: VtsConnectionStats,
}

impl VtsStatsManager {
    /// Every zone map is well-formed and each upstream zone is internally
    /// consistent and carries its own key as its name.
    pub open spec fn wf(self) -> bool {
        &&& self.stats.wf()
        &&& self.upstream_zones.wf()
        &&& forall|k: Seq<char>|
            #[trigger] self.upstream_zones.as_map().contains_key(k)
                ==> self.upstream_zones.as_map()[k].wf() && self.upstream_zones.as_map()[k].name@
                == k
    }

    pub open spec fn server_map(self) -> Map<Seq<char>, VtsNodeStats> {
        self.stats.as_map()
    }

    pub open spec fn upstream_map(self) -> Map<Seq<char>, UpstreamZone> {
        self.upstream_zones.as_map()
    }

    /// A fresh registry with no zones and zero connection gauges.
    pub fn new() -> (r: VtsStatsManager)
        ensures
            r.wf(),
            r.server_map() == Map::<Seq<char>, VtsNodeStats>::empty(),
            r.upstream_map() == Map::<Seq<char>, UpstreamZone>::empty(),
            r.stats.key_seq() == Seq::<Seq<char>>::empty(),
            r.upstream_zones.key_seq() == Seq::<Seq<char>>::empty(),
            r.connections == VtsConnectionStats::zero(),
    {
        VtsStatsManager {
            stats: StrTable::new(),
            upstream_zones: StrTable::new(),
            connections: VtsConnectionStats::new(),
        }
    }

    /// Fold one completed request into a server zone, creating the zone
    /// with zero counters on its first request.
    pub fn update_server_stats(
        &mut self,
        server_name: &str,
        status: u16,
        bytes_in: u64,
        bytes_out: u64,
        request_time: u64,
    )
        requires
            old(self).wf(),
        ensures
            final(self).wf(),
            final(self).server_map() == old(self).server_map().insert(
                server_name@,
                spec_node_update(
                    if old(self).server_map().contains_key(server_name@) {
                        old(self).server_map()[server_name@]
                    } else {
                        VtsNodeStats::zero()
                    },
                    status,
                    bytes_in,
                    bytes_out,
                    request_time,
                ),
            ),
            old(self).server_map().contains_key(server_name@) ==> final(self).stats.key_seq()
                == old(self).stats.key_seq(),
            !old(self).server_map().contains_key(server_name@) ==> final(self).stats.key_seq()
                == old(self).stats.key_seq().push(server_name@),
            final(self).upstream_zones == old(self).upstream_zones,
            final(self).connections == old(self).connections,
    {
        let slot = self.stats.get_or_insert_mut(server_name, VtsNodeStats::new());
        slot.update_request(status, bytes_in, bytes_out, request_time);
    }

    /// The counters of one server zone, if it exists.
    pub fn get_server_stats(&self, server_name: &str) -> (r: Option<&VtsNodeStats>)
        requires
            self.wf(),
        ensures
            r == if self.server_map().contains_key(server_name@) {
                Some(&self.server_map()[server_name@])
            } else {
                None::<&VtsNodeStats>
            },
    {
        self.stats.get(server_name)
    }

    /// Every server zone with its counters, in insertion order.
    pub fn get_all_stats(&self) -> (r: Vec<(String, VtsNodeStats)>)
        requires
            self.wf(),
        ensures
            r@.len() == self.stats.key_seq().len(),
            forall|i: int|
                0 <= i < r@.len() ==> r@[i].0@ == self.stats.key_seq()[i] && r@[i].1
                    == self.stats.val_seq()[i],
    {
        proof {
            self.stats.lemma_wf();
        }
        let n = self.stats.len();
        let mut out: Vec<(String, VtsNodeStats)> = Vec::new();
        let mut i: usize = 0;
        while i < n
            invariant
                self.wf(),
                n == self.stats.key_seq().len(),
                n == self.stats.val_seq().len(),
                i <= n,
                out@.len() == i,
                forall|j: int|
                    0 <= j < i ==> out@[j].0@ == self.stats.key_seq()[j] && out@[j].1
                        == self.stats.val_seq()[j],
            decreases n - i,
        {
            let key = self.stats.key_at(i).clone();
            let val = *self.stats.val_at(i);
            out.push((key, val));
            i += 1;
        }
        out
    }

    /// The upstream zone of a group name, if it exists; its name field
    /// carries that group name.
    pub fn get_upstream_zone(&self, upstream_name: &str) -> (r: Option<&UpstreamZone>)
        requires
            self.wf(),
        ensures
            r == if self.upstream_map().contains_key(upstream_name@) {
                Some(&self.upstream_map()[upstream_name@])
            } else {
                None::<&UpstreamZone>
            },
            r is Some ==> r.unwrap().wf() && r.unwrap().name@ == upstream_name@,
    {
        self.upstream_zones.get(upstream_name)
    }

    /// Every upstream zone, keyed by group name.
    pub fn get_all_upstream_zones(&self) -> (r: &StrTable<UpstreamZone>)
        ensures
            *r == self.upstream_zones,
    {
        &self.upstream_zones
    }

    /// The zone of a group name, created empty on first access.  The
    /// registry afterwards maps the name to whatever the caller leaves in
    /// the returned reference; well-formedness follows as long as the
    /// caller keeps the zone well-formed and does not rename it.
    pub fn get_or_create_upstream_zone(&mut self, upstream_name: &str) -> (r: &mut UpstreamZone)
        requires
            old(self).wf(),
        ensures
            old(self).upstream_map().contains_key(upstream_name@) ==> *r == old(
                self,
            ).upstream_map()[upstream_name@],
            !old(self).upstream_map().contains_key(upstream_name@) ==> r.wf() && r.name@
                == upstream_name@ && r.servers_map() == Map::<
                Seq<char>,
                UpstreamServerStats,
            >::empty(),
            r.wf() && r.name@ == upstream_name@,
            final(self).upstream_map() == old(self).upstream_map().insert(
                upstream_name@,
                *final(r),
            ),
            final(self).stats == old(self).stats,
            final(self).connections == old(self).connections,
            final(self).upstream_zones.wf(),
            final(r).wf() && final(r).name@ == upstream_name@ ==> final(self).wf(),
    {
        let fresh = UpstreamZone::new(upstream_name);
        self.upstream_zones.get_or_insert_mut(upstream_name, fresh)
    }

    /// Record one finished upstream request: group and member are created
    /// zeroed on first use, then the member's counters take the sample.
    pub fn update_upstream_stats(
        &mut self,
        upstream_name: &str,
        upstream_addr: &str,
        request_time: u64,
        upstream_response_time: u64,
        bytes_sent: u64,
        bytes_received: u64,
        status_code: u16,
    )
        requires
            old(self).wf(),
        ensures
            final(self).wf(),
            final(self).stats == old(self).stats,
            final(self).connections == old(self).connections,
            final(self).upstream_map().contains_key(upstream_name@),
            final(self).upstream_map() == old(self).upstream_map().insert(
                upstream_name@,
                final(self).upstream_map()[upstream_name@],
            ),
            ({
                let z = final(self).upstream_map()[upstream_name@];
                let before = if old(self).upstream_map().contains_key(upstream_name@) {
                    old(self).upstream_map()[upstream_name@].servers_map()
                } else {
                    Map::<Seq<char>, UpstreamServerStats>::empty()
                };
                &&& z.name@ == upstream_name@
                &&& member_recorded(
                    before,
                    z.servers_map(),
                    upstream_addr@,
                    request_time,
                    upstream_response_time,
                    bytes_sent,
                    bytes_received,
                    status_code,
                )
            }),
    {
        let zone = self.get_or_create_upstream_zone(upstream_name);
        let server_stats = zone.get_or_create_server(upstream_addr);
        server_stats.request_counter = add_sat(server_stats.request_counter, 1);
        server_stats.in_bytes = add_sat(server_stats.in_bytes, bytes_received);
        server_stats.out_bytes = add_sat(server_stats.out_bytes, bytes_sent);
        server_stats.update_response_status(status_code);
        server_stats.update_timing(Some(request_time), Some(upstream_response_time));
    }

    /// Overwrite the connection gauges and totals.
    pub fn update_connection_stats(
        &mut self,
        active: u64,
        reading: u64,
        writing: u64,
        waiting: u64,
        accepted: u64,
        handled: u64,
    )
        ensures
            final(self).connections == (VtsConnectionStats {
                active,
                reading,
                writing,
                waiting,
                accepted,
                handled,
            }),
            final(self).stats == old(self).stats,
            final(self).upstream_zones == old(self).upstream_zones,
            old(self).wf() ==> final(self).wf(),
    {
        self.connections = VtsConnectionStats { active, reading, writing, waiting, accepted, handled };
    }

    /// The current connection gauges.
    pub fn get_connection_stats(&self) -> (r: &VtsConnectionStats)
        ensures
            *r == self.connections,
    {
        &self.connections
    }

    /// Server zones converted to snapshot form for formatting.
    pub fn get_all_server_stats(&self) -> (r: StrTable<VtsServerStats>)
        requires
            self.wf(),
        ensures
            r.wf(),
            r.key_seq() == self.stats.key_seq(),
            forall|i: int|
                0 <= i < r.val_seq().len() ==> r.val_seq()[i] == spec_node_to_server(
                    self.stats.val_seq()[i],
                ),
    {
        proof {
            self.stats.lemma_wf();
        }
        let n = self.stats.len();
        let mut out: StrTable<VtsServerStats> = StrTable::new();
        let mut i: usize = 0;
        while i < n
            invariant
                self.wf(),
                n == self.stats.key_seq().len(),
                n == self.stats.val_seq().len(),
                forall|p: int, q: int|
                    0 <= p < q < n ==> self.stats.key_seq()[p] != self.stats.key_seq()[q],
                i <= n,
                out.wf(),
                out.key_seq() == self.stats.key_seq().take(i as int),
                out.val_seq().len() == i,
                forall|j: int|
                    0 <= j < i ==> out.val_seq()[j] == spec_node_to_server(
                        self.stats.val_seq()[j],
                    ),
            decreases n - i,
        {
            proof {
                out.lemma_contains(self.stats.key_seq()[i as int]);
            }
            let key = self.stats.key_at(i);
            let node = self.stats.val_at(i);
            let converted = node_to_server(node);
            let ghost old_vals = out.val_seq();
            out.insert(key.as_str(), converted);
            proof {
                assert(self.stats.key_seq().take(i + 1) =~= self.stats.key_seq().take(
                    i as int,
                ).push(self.stats.key_seq()[i as int]));
            }
            i += 1;
        }
        proof {
            assert(self.stats.key_seq().take(n as int) =~= self.stats.key_seq());
        }
        out
    }

    /// A full copied-out snapshot of every registry, with the caller's
    /// host identification and clock reading.  The copy is consistent per
    /// key but not atomically consistent across the maps.
    pub fn get_stats(
        &self,
        cache: &CacheStatsManager,
        hostname: String,
        version: String,
        timestamp: u64,
    ) -> (r: VtsStats)
        requires
            self.wf(),
            cache.wf(),
        ensures
            r.wf(),
            r.hostname == hostname,
            r.version == version,
            r.timestamp == timestamp,
            r.load_timestamp == timestamp,
            r.connections == self.connections,
            r.server_zones.key_seq() == self.stats.key_seq(),
            forall|i: int|
                0 <= i < r.server_zones.val_seq().len() ==> r.server_zones.val_seq()[i]
                    == spec_node_to_server(self.stats.val_seq()[i]),
            r.upstream_zones.key_seq() == self.upstream_zones.key_seq(),
            forall|i: int|
                0 <= i < r.upstream_zones.val_seq().len() ==> member_list_matches(
                    self.upstream_zones.val_seq()[i],
                    #[trigger] r.upstream_zones.val_seq()[i],
                ),
            r.cache_zones.key_seq() == cache.cache_zones.key_seq(),
            forall|i: int|
                0 <= i < r.cache_zones.val_seq().len() ==> r.cache_zones.val_seq()[i]
                    == cache.cache_zones.val_seq()[i].cache,
    {
        proof {
            self.upstream_zones.lemma_wf();
            cache.cache_zones.lemma_wf();
        }
        let server_zones = self.get_all_server_stats();

        let mut upstream_zones: StrTable<Vec<VtsUpstreamStats>> = StrTable::new();
        let n = self.upstream_zones.len();
        let mut i: usize = 0;
        while i < n
            invariant
                self.wf(),
                n == self.upstream_zones.key_seq().len(),
                n == self.upstream_zones.val_seq().len(),
                forall|p: int, q: int|
                    0 <= p < q < n ==> self.upstream_zones.key_seq()[p]
                        != self.upstream_zones.key_seq()[q],
                i <= n,
                upstream_zones.wf(),
                upstream_zones.key_seq() == self.upstream_zones.key_seq().take(i as int),
                upstream_zones.val_seq().len() == i,
                forall|k: int|
                    0 <= k < i ==> member_list_matches(
                        self.upstream_zones.val_seq()[k],
                        #[trigger] upstream_zones.val_seq()[k],
                    ),
            decreases n - i,
        {
            let zone = self.upstream_zones.val_at(i);
            proof {
                self.upstream_zones.lemma_at(i as int);
                zone.servers.lemma_wf();
            }
            let m = zone.servers.len();
            let mut members: Vec<VtsUpstreamStats> = Vec::new();
            let mut j: usize = 0;
            while j < m
                invariant
                    zone.wf(),
                    m == zone.server_keys().len(),
                    m == zone.server_vals().len(),
                    j <= m,
                    members@.len() == j,
                    forall|t: int|
                        0 <= t < j ==> members@[t] == spec_member_to_upstream(
                            zone.server_vals()[t],
                        ),
                decreases m - j,
            {
                members.push(member_to_upstream(zone.servers.val_at(j)));
                j += 1;
            }
            proof {
                upstream_zones.lemma_contains(self.upstream_zones.key_seq()[i as int]);
            }
            let key = self.upstream_zones.key_at(i);
            upstream_zones.insert(key.as_str(), members);
            proof {
                assert(self.upstream_zones.key_seq().take(i + 1)
                    =~= self.upstream_zones.key_seq().take(i as int).push(
                    self.upstream_zones.key_seq()[i as int],
                ));
            }
            i += 1;
        }
        proof {
            assert(self.upstream_zones.key_seq().take(n as int) =~= self.upstream_zones.key_seq());
        }

        let mut cache_zones: StrTable<VtsCacheStats> = StrTable::new();
        let cn = cache.cache_zones.len();
        let mut i: usize = 0;
        while i < cn
            invariant
                cache.wf(),
                cn == cache.cache_zones.key_seq().len(),
                cn == cache.cache_zones.val_seq().len(),
                forall|p: int, q: int|
                    0 <= p < q < cn ==> cache.cache_zones.key_seq()[p]
                        != cache.cache_zones.key_seq()[q],
                i <= cn,
                cache_zones.wf(),
                cache_zones.key_seq() == cache.cache_zones.key_seq().take(i as int),
                cache_zones.val_seq().len() == i,
                forall|k: int|
                    0 <= k < i ==> #[trigger] cache_zones.val_seq()[k]
                        == cache.cache_zones.val_seq()[k].cache,
            decreases cn - i,
        {
            proof {
                cache_zones.lemma_contains(cache.cache_zones.key_seq()[i as int]);
            }
            let key = cache.cache_zones.key_at(i);
            let counters = cache.cache_zones.val_at(i).cache;
            cache_zones.insert(key.as_str(), counters);
            proof {
                assert(cache.cache_zones.key_seq().take(i + 1)
                    =~= cache.cache_zones.key_seq().take(i as int).push(
                    cache.cache_zones.key_seq()[i as int],
                ));
            }
            i += 1;
        }
        proof {
            assert(cache.cache_zones.key_seq().take(cn as int) =~= cache.cache_zones.key_seq());
        }

        VtsStats {
            hostname,
            version,
            timestamp,
            load_timestamp: timestamp,
            connections: self.connections,
            server_zones,
            upstream_zones,
            cache_zones,
        }
    }

    /// Clear the server-zone registry.
    pub fn reset_server_zones(&mut self)
        ensures
            old(self).wf() ==> final(self).wf(),
            final(self).server_map() == Map::<Seq<char>, VtsNodeStats>::empty(),
            final(self).stats.key_seq() == Seq::<Seq<char>>::empty(),
            final(self).upstream_zones == old(self).upstream_zones,
            final(self).connections == old(self).connections,
    {
        self.stats.clear();
    }

    /// The explicit reset: clear every registry and zero the connection
    /// gauges.
    pub fn reset_stats(&mut self)
        ensures
            final(self).wf(),
            final(self).server_map() == Map::<Seq<char>, VtsNodeStats>::empty(),
            final(self).upstream_map() == Map::<Seq<char>, UpstreamZone>::empty(),
            final(self).connections == VtsConnectionStats::zero(),
    {
        self.stats.clear();
        self.upstream_zones.clear();
        self.connections = VtsConnectionStats::new();
    }
}

/// The member list of a snapshot matches a zone: one converted entry per
/// member, in the zone's order.
pub open spec fn member_list_matches(zone: UpstreamZone, members: Vec<VtsUpstreamStats>) -> bool {
    &&& members@.len() == zone.server_vals().len()
    &&& forall|j: int|
        0 <= j < members@.len() ==> members@[j] == spec_member_to_upstream(
            zone.server_vals()[j],
        )
}

/// The snapshot form of a server zone's counters: same integers, with the
/// sample count carried explicitly (every request contributes one sample).
pub open spec fn spec_node_to_server(n: VtsNodeStats) -> VtsServerStats {
    VtsServerStats {
        requests: n.requests,
        bytes_in: n.bytes_in,
        bytes_out: n.bytes_out,
        responses: VtsResponseStats {
            status_1xx: n.status_1xx,
            status_2xx: n.status_2xx,
            status_3xx: n.status_3xx,
            status_4xx: n.status_4xx,
            status_5xx: n.status_5xx,
        },
        request_times: VtsRequestTimes {
            total: n.request_time_total,
            min: n.request_time_min,
            max: n.request_time_max,
            count: n.requests,
            min_set: n.request_time_min_set,
        },
    }
}

/// Convert one zone's counters to snapshot form.
pub fn node_to_server(n: &VtsNodeStats) -> (r: VtsServerStats)
    ensures
        r == spec_node_to_server(*n),
{
    VtsServerStats {
        requests: n.requests,
        bytes_in: n.bytes_in,
        bytes_out: n.bytes_out,
        responses: VtsResponseStats {
            status_1xx: n.status_1xx,
            status_2xx: n.status_2xx,
            status_3xx: n.status_3xx,
            status_4xx: n.status_4xx,
            status_5xx: n.status_5xx,
        },
        request_times: VtsRequestTimes {
            total: n.request_time_total,
            min: n.request_time_min,
            max: n.request_time_max,
            count: n.requests,
            min_set: n.request_time_min_set,
        },
    }
}

impl Default for VtsNodeStats {
    fn default() -> (r: VtsNodeStats)
        ensures
            r == VtsNodeStats::zero(),
    {
        VtsNodeStats::new()
    }
}

impl Default for VtsStatsManager {
    fn default() -> (r: VtsStatsManager)
        ensures
            r.wf(),
            r.server_map() == Map::<Seq<char>, VtsNodeStats>::empty(),
            r.upstream_map() == Map::<Seq<char>, UpstreamZone>::empty(),
            r.connections == VtsConnectionStats::zero(),
    {
        VtsStatsManager::new()
    }
}

} // verus!
