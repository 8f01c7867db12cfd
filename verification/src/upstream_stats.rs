//! Upstream member statistics.
//!
//! An upstream zone is a named group of backend members; each member keeps
//! request/byte counters, a status histogram, and two independent timing
//! aggregates (whole request and upstream-only response), each with its own
//! sum and sample count since not every sample yields both.  A timing value
//! of exactly zero is a real zero-duration sample and is counted; absence is
//! expressed by passing `None`, never by a zero sentinel.

use crate::arith::add_sat;
use crate::arith::sat_add;
use crate::arith::ratio_scaled;
use crate::arith::scaled_ratio;
use crate::stats::count_status;
use crate::stats::spec_count_status;
use crate::stats::VtsResponseStats;
use crate::table::StrTable;
use vstd::prelude::*;

verus! {

/// Counters for one upstream member.  The static mirror fields (`weight`,
/// `max_fails`, `fail_timeout`, `backup`) and the `down` health flag are set
/// externally, not derived from traffic.
#[derive(Debug, Clone)]
pub struct UpstreamServerStats {
    /// Member address, e.g. `10.0.0.1:80`.
    pub server: String,
    /// Requests sent to this member.
    pub request_counter: u64,
    /// Bytes received from this member.
    pub in_bytes: u64,
    /// Bytes sent to this member.
    pub out_bytes: u64,
    /// Response status histogram.
    pub responses: VtsResponseStats,
    /// Sum of whole-request times, milliseconds.
    pub request_time_total: u64,
    /// Number of whole-request time samples.
    pub request_time_counter: u64,
    /// Sum of upstream-only response times, milliseconds.
    pub response_time_total: u64,
    /// Number of upstream-only response time samples.
    pub response_time_counter: u64,
    pub weight: u32,
    pub max_fails: u32,
    pub fail_timeout: u32,
    pub backup: bool,
    pub down: bool,
}

impl UpstreamServerStats {
    /// Zero counters and default static mirror fields for a fresh member.
    pub open spec fn is_fresh(self, server: Seq<char>) -> bool {
        &&& self.server@ == server
        &&& self.request_counter == 0
        &&& self.in_bytes == 0
        &&& self.out_bytes == 0
        &&& self.responses == VtsResponseStats::zero()
        &&& self.request_time_total == 0
        &&& self.request_time_counter == 0
        &&& self.response_time_total == 0
        &&& self.response_time_counter == 0
        &&& self.weight == 1
        &&& self.max_fails == 1
        &&& self.fail_timeout == 10
        &&& self.backup == false
        &&& self.down == false
    }

    pub fn new(server: &str) -> (r: UpstreamServerStats)
        ensures
            r.is_fresh(server@),
    {
        UpstreamServerStats {
            server: server.to_owned(),
            request_counter: 0,
            in_bytes: 0,
            out_bytes: 0,
            responses: VtsResponseStats::new(),
            request_time_total: 0,
            request_time_counter: 0,
            response_time_total: 0,
            response_time_counter: 0,
            weight: 1,
            max_fails: 1,
            fail_timeout: 10,
            backup: false,
            down: false,
        }
    }

    pub fn update_response_status(&mut self, status_code: u16)
        ensures
            *final(self) == (UpstreamServerStats {
                responses: spec_count_status(old(self).responses, status_code),
                ..*old(self)
            }),
    {
        count_status(&mut self.responses, status_code);
    }

    /// Timing aggregates updated independently: each `Some` value, zero
    /// included, is one sample for its aggregate; `None` leaves it alone.
    pub open spec fn spec_update_timing(
        s: UpstreamServerStats,
        request_time: Option<u64>,
        upstream_response_time: Option<u64>,
    ) -> UpstreamServerStats {
        let s1 = match request_time {
            Some(ms) => UpstreamServerStats {
                request_time_total: sat_add(s.request_time_total, ms),
                request_time_counter: sat_add(s.request_time_counter, 1),
                ..s
            },
            None => s,
        };
        match upstream_response_time {
            Some(ms) => UpstreamServerStats {
                response_time_total: sat_add(s1.response_time_total, ms),
                response_time_counter: sat_add(s1.response_time_counter, 1),
                ..s1
            },
            None => s1,
        }
    }

    pub fn update_timing(&mut self, request_time: Option<u64>, upstream_response_time: Option<u64>)
        ensures
            *final(self) == UpstreamServerStats::spec_update_timing(
                *old(self),
                request_time,
                upstream_response_time,
            ),
    {
        match request_time {
            Some(ms) => {
                self.request_time_total = add_sat(self.request_time_total, ms);
                self.request_time_counter = add_sat(self.request_time_counter, 1);
            },
            None => {},
        }
        match upstream_response_time {
            Some(ms) => {
                self.response_time_total = add_sat(self.response_time_total, ms);
                self.response_time_counter = add_sat(self.response_time_counter, 1);
            },
            None => {},
        }
    }

    /// Average whole-request time in hundredths of a millisecond, rounded
    /// half up; `0` when no sample was recorded.
    pub fn avg_request_time(&self) -> (r: u64)
        ensures
            r == scaled_ratio(self.request_time_total, self.request_time_counter, 100),
    {
        ratio_scaled(self.request_time_total, self.request_time_counter, 100)
    }

    /// Average upstream-only response time in hundredths of a millisecond,
    /// rounded half up; `0` when no sample was recorded.
    pub fn avg_response_time(&self) -> (r: u64)
        ensures
            r == scaled_ratio(self.response_time_total, self.response_time_counter, 100),
    {
        ratio_scaled(self.response_time_total, self.response_time_counter, 100)
    }
}

/// A named upstream group holding one statistics record per member address.
#[derive(Debug)]
pub struct UpstreamZone {
    /// Upstream group name.
    pub name: String,
    /// Member records keyed by member address.
    pub servers: StrTable<UpstreamServerStats>,
}

impl UpstreamZone {
    pub open spec fn wf(self) -> bool {
        self.servers.wf()
    }

    /// Member records keyed by member address.
    pub open spec fn servers_map(self) -> Map<Seq<char>, UpstreamServerStats> {
        self.servers.as_map()
    }

    /// Member addresses in insertion order.
    pub open spec fn server_keys(self) -> Seq<Seq<char>> {
        self.servers.key_seq()
    }

    pub open spec fn server_vals(self) -> Seq<UpstreamServerStats> {
        self.servers.val_seq()
    }

    pub fn new(name: &str) -> (r: UpstreamZone)
        ensures
            r.wf(),
            r.name@ == name@,
            r.servers_map() == Map::<Seq<char>, UpstreamServerStats>::empty(),
            r.server_keys() == Seq::<Seq<char>>::empty(),
    {
        UpstreamZone { name: name.to_owned(), servers: StrTable::new() }
    }

    /// The record for a member address, created zeroed on first access; the
    /// zone afterwards maps the address to whatever the caller leaves in the
    /// returned reference.
    pub fn get_or_create_server(&mut self, server_addr: &str) -> (r: &mut UpstreamServerStats)
        requires
            old(self).wf(),
        ensures
            old(self).servers_map().contains_key(server_addr@) ==> *r == old(self).servers_map()[
                server_addr@
            ],
            !old(self).servers_map().contains_key(server_addr@) ==> r.is_fresh(server_addr@),
            final(self).wf(),
            final(self).name == old(self).name,
            final(self).servers_map() == old(self).servers_map().insert(
                server_addr@,
                *final(r),
            ),
            old(self).servers_map().contains_key(server_addr@) ==> final(self).server_keys()
                == old(self).server_keys(),
            !old(self).servers_map().contains_key(server_addr@) ==> final(self).server_keys()
                == old(self).server_keys().push(server_addr@),
    {
        let fresh = UpstreamServerStats::new(server_addr);
        self.servers.get_or_insert_mut(server_addr, fresh)
    }

    pub fn server_count(&self) -> (n: usize)
        ensures
            n == self.server_keys().len(),
    {
        self.servers.len()
    }

    pub fn get_server(&self, server_addr: &str) -> (r: Option<&UpstreamServerStats>)
        requires
            self.wf(),
        ensures
            r == if self.servers_map().contains_key(server_addr@) {
                Some(&self.servers_map()[server_addr@])
            } else {
                None::<&UpstreamServerStats>
            },
    {
        self.servers.get(server_addr)
    }

    pub fn contains_server(&self, server_addr: &str) -> (b: bool)
        requires
            self.wf(),
        ensures
            b == self.servers_map().contains_key(server_addr@),
    {
        self.servers.contains_key(server_addr)
    }

    pub fn server_addr_at(&self, i: usize) -> (k: &String)
        requires
            i < self.server_keys().len(),
        ensures
            k@ == self.server_keys()[i as int],
    {
        self.servers.key_at(i)
    }

    pub fn server_at(&self, i: usize) -> (v: &UpstreamServerStats)
        requires
            self.wf(),
            i < self.server_keys().len(),
        ensures
            *v == self.server_vals()[i as int],
    {
        proof {
            self.servers.lemma_wf();
        }
        self.servers.val_at(i)
    }

    /// Sum of member request counters, clamped at `u64::MAX`.
    pub open spec fn spec_total_requests(servers: Seq<UpstreamServerStats>) -> u64
        decreases servers.len(),
    {
        if servers.len() == 0 {
            0
        } else {
            sat_add(
                UpstreamZone::spec_total_requests(servers.drop_last()),
                servers.last().request_counter,
            )
        }
    }

    pub fn total_requests(&self) -> (r: u64)
        requires
            self.wf(),
        ensures
            r == UpstreamZone::spec_total_requests(self.server_vals()),
    {
        proof {
            self.servers.lemma_wf();
        }
        let n = self.servers.len();
        let mut total: u64 = 0;
        let mut i: usize = 0;
        while i < n
            invariant
                self.wf(),
                n == self.server_keys().len(),
                n == self.server_vals().len(),
                i <= n,
                total == UpstreamZone::spec_total_requests(self.server_vals().take(i as int)),
            decreases n - i,
        {
            total = add_sat(total, self.servers.val_at(i).request_counter);
            proof {
                assert(self.server_vals().take(i + 1).drop_last() =~= self.server_vals().take(
                    i as int,
                ));
                assert(self.server_vals().take(i + 1).last() == self.server_vals()[i as int]);
            }
            i += 1;
        }
        proof {
            assert(self.server_vals().take(n as int) =~= self.server_vals());
        }
        total
    }

    /// Sums of member byte counters, `(in, out)`, clamped at `u64::MAX`.
    pub open spec fn spec_total_bytes(servers: Seq<UpstreamServerStats>) -> (u64, u64)
        decreases servers.len(),
    {
        if servers.len() == 0 {
            (0, 0)
        } else {
            let rest = UpstreamZone::spec_total_bytes(servers.drop_last());
            (
                sat_add(rest.0, servers.last().in_bytes),
                sat_add(rest.1, servers.last().out_bytes),
            )
        }
    }

    pub fn total_bytes(&self) -> (r: (u64, u64))
        requires
            self.wf(),
        ensures
            r == UpstreamZone::spec_total_bytes(self.server_vals()),
    {
        proof {
            self.servers.lemma_wf();
        }
        let n = self.servers.len();
        let mut total_in: u64 = 0;
        let mut total_out: u64 = 0;
        let mut i: usize = 0;
        while i < n
            invariant
                self.wf(),
                n == self.server_keys().len(),
                n == self.server_vals().len(),
                i <= n,
                (total_in, total_out) == UpstreamZone::spec_total_bytes(
                    self.server_vals().take(i as int),
                ),
            decreases n - i,
        {
            let s = self.servers.val_at(i);
            total_in = add_sat(total_in, s.in_bytes);
            total_out = add_sat(total_out, s.out_bytes);
            proof {
                assert(self.server_vals().take(i + 1).drop_last() =~= self.server_vals().take(
                    i as int,
                ));
                assert(self.server_vals().take(i + 1).last() == self.server_vals()[i as int]);
            }
            i += 1;
        }
        proof {
            assert(self.server_vals().take(n as int) =~= self.server_vals());
        }
        (total_in, total_out)
    }
}

} // verus!
