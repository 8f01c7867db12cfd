//! Prometheus exposition formatting.
//!
//! Every format function is a pure function of its snapshot argument: the
//! exact text it returns is stated by a spec function, so two calls on the
//! same unmodified snapshot produce byte-identical text.  Within one call
//! each metric family is preceded by exactly one HELP line and one TYPE
//! line and its series are contiguous.  Every family always emits its
//! HELP/TYPE header, even with zero entries; no family is conditionally
//! omitted.

use crate::arith::ratio_scaled;
use crate::arith::scaled_ratio;
use crate::cache_stats::spec_total_requests;
use crate::cache_stats::CacheStatsManager;
use crate::cache_stats::CacheZoneStats;
use crate::render::push_dec;
use crate::render::push_percent2;
use crate::render::push_seconds6;
use crate::render::spec_dec;
use crate::render::spec_percent2;
use crate::render::spec_seconds6;
use crate::stats::VtsConnectionStats;
use crate::stats::VtsServerStats;
use crate::table::StrTable;
use crate::upstream_stats::UpstreamServerStats;
use crate::upstream_stats::UpstreamZone;
use crate::vts_node::spec_node_to_server;
use crate::vts_node::VtsNodeStats;
use crate::vts_node::VtsStatsManager;
use vstd::prelude::*;
use vstd::string::StringExecFns;

verus! {

/// Formatter for the Prometheus exposition text, carrying the metric name
/// prefix.
pub struct PrometheusFormatter {
    /// Prefix of every metric family name.
    pub metric_prefix: String,
}

/// A HELP line and a TYPE line for one family.
pub open spec fn spec_header(prefix: Seq<char>, help: Seq<char>, kind: Seq<char>) -> Seq<char> {
    "# HELP "@ + prefix + help + "# TYPE "@ + prefix + kind
}

fn push_header(out: &mut String, prefix: &String, help: &str, kind: &str)
    ensures
        final(out)@ == old(out)@ + spec_header(prefix@, help@, kind@),
{
    out.append("# HELP ");
    out.append(prefix.as_str());
    out.append(help);
    out.append("# TYPE ");
    out.append(prefix.as_str());
    out.append(kind);
    proof {
        assert(out@ =~= old(out)@ + spec_header(prefix@, help@, kind@));
    }
}

/// A series line with one label value: `<prefix><mid><a><tail><value>\n`.
pub open spec fn spec_line1(
    prefix: Seq<char>,
    mid: Seq<char>,
    a: Seq<char>,
    tail: Seq<char>,
    value: Seq<char>,
) -> Seq<char> {
    prefix + mid + a + tail + value + "\n"@
}

/// A series line with two label values:
/// `<prefix><mid><a><mid2><b><tail><value>\n`.
pub open spec fn spec_line2(
    prefix: Seq<char>,
    mid: Seq<char>,
    a: Seq<char>,
    mid2: Seq<char>,
    b: Seq<char>,
    tail: Seq<char>,
    value: Seq<char>,
) -> Seq<char> {
    prefix + mid + a + mid2 + b + tail + value + "\n"@
}

fn push_line1_dec(out: &mut String, prefix: &String, mid: &str, a: &str, tail: &str, v: u64)
    ensures
        final(out)@ == old(out)@ + spec_line1(prefix@, mid@, a@, tail@, spec_dec(v as int)),
{
    out.append(prefix.as_str());
    out.append(mid);
    out.append(a);
    out.append(tail);
    push_dec(out, v);
    out.append("\n");
    proof {
        assert(out@ =~= old(out)@ + spec_line1(prefix@, mid@, a@, tail@, spec_dec(v as int)));
    }
}

fn push_line1_sec(out: &mut String, prefix: &String, mid: &str, a: &str, tail: &str, micros: u64)
    ensures
        final(out)@ == old(out)@ + spec_line1(prefix@, mid@, a@, tail@, spec_seconds6(micros)),
{
    out.append(prefix.as_str());
    out.append(mid);
    out.append(a);
    out.append(tail);
    push_seconds6(out, micros);
    out.append("\n");
    proof {
        assert(out@ =~= old(out)@ + spec_line1(prefix@, mid@, a@, tail@, spec_seconds6(micros)));
    }
}

fn push_line1_pct(out: &mut String, prefix: &String, mid: &str, a: &str, tail: &str, centi: u64)
    ensures
        final(out)@ == old(out)@ + spec_line1(prefix@, mid@, a@, tail@, spec_percent2(centi)),
{
    out.append(prefix.as_str());
    out.append(mid);
    out.append(a);
    out.append(tail);
    push_percent2(out, centi);
    out.append("\n");
    proof {
        assert(out@ =~= old(out)@ + spec_line1(prefix@, mid@, a@, tail@, spec_percent2(centi)));
    }
}

fn push_line2_dec(
    out: &mut String,
    prefix: &String,
    mid: &str,
    a: &str,
    mid2: &str,
    b: &str,
    tail: &str,
    v: u64,
)
    ensures
        final(out)@ == old(out)@ + spec_line2(
            prefix@,
            mid@,
            a@,
            mid2@,
            b@,
            tail@,
            spec_dec(v as int),
        ),
{
    out.append(prefix.as_str());
    out.append(mid);
    out.append(a);
    out.append(mid2);
    out.append(b);
    out.append(tail);
    push_dec(out, v);
    out.append("\n");
    proof {
        assert(out@ =~= old(out)@ + spec_line2(
            prefix@,
            mid@,
            a@,
            mid2@,
            b@,
            tail@,
            spec_dec(v as int),
        ));
    }
}

fn push_line2_sec(
    out: &mut String,
    prefix: &String,
    mid: &str,
    a: &str,
    mid2: &str,
    b: &str,
    tail: &str,
    micros: u64,
)
    ensures
        final(out)@ == old(out)@ + spec_line2(
            prefix@,
            mid@,
            a@,
            mid2@,
            b@,
            tail@,
            spec_seconds6(micros),
        ),
{
    out.append(prefix.as_str());
    out.append(mid);
    out.append(a);
    out.append(mid2);
    out.append(b);
    out.append(tail);
    push_seconds6(out, micros);
    out.append("\n");
    proof {
        assert(out@ =~= old(out)@ + spec_line2(
            prefix@,
            mid@,
            a@,
            mid2@,
            b@,
            tail@,
            spec_seconds6(micros),
        ));
    }
}

/// `nginx_vts_info`: one gauge carrying hostname and version labels.
pub open spec fn spec_nginx_info(
    prefix: Seq<char>,
    hostname: Seq<char>,
    version: Seq<char>,
) -> Seq<char> {
    spec_header(prefix, "info Nginx VTS module information\n"@, "info gauge\n"@) + prefix
        + "info{hostname=\""@ + hostname + "\",version=\""@ + version + "\"} 1\n\n"@
}

/// `nginx_vts_connections` and `nginx_vts_connections_total`.
pub open spec fn spec_connection_stats(prefix: Seq<char>, c: VtsConnectionStats) -> Seq<char> {
    spec_header(prefix, "connections Current nginx connections\n"@, "connections gauge\n"@)
        + spec_line1(prefix, "connections{state=\""@, "active"@, "\"} "@, spec_dec(c.active as int))
        + spec_line1(
        prefix,
        "connections{state=\""@,
        "reading"@,
        "\"} "@,
        spec_dec(c.reading as int),
    ) + spec_line1(
        prefix,
        "connections{state=\""@,
        "writing"@,
        "\"} "@,
        spec_dec(c.writing as int),
    ) + spec_line1(
        prefix,
        "connections{state=\""@,
        "waiting"@,
        "\"} "@,
        spec_dec(c.waiting as int),
    ) + "\n"@ + spec_header(
        prefix,
        "connections_total Total nginx connections\n"@,
        "connections_total counter\n"@,
    ) + spec_line1(
        prefix,
        "connections_total{state=\""@,
        "accepted"@,
        "\"} "@,
        spec_dec(c.accepted as int),
    ) + spec_line1(
        prefix,
        "connections_total{state=\""@,
        "handled"@,
        "\"} "@,
        spec_dec(c.handled as int),
    ) + "\n"@
}

/// One zone's `server_requests_total` series line.
pub open spec fn spec_server_requests_line(
    prefix: Seq<char>,
    zone: Seq<char>,
    s: VtsServerStats,
) -> Seq<char> {
    spec_line1(prefix, "server_requests_total{zone=\""@, zone, "\"} "@, spec_dec(s.requests as int))
}

/// One zone's `server_bytes_total` pair of series lines.
pub open spec fn spec_server_bytes_line(
    prefix: Seq<char>,
    zone: Seq<char>,
    s: VtsServerStats,
) -> Seq<char> {
    spec_line1(
        prefix,
        "server_bytes_total{zone=\""@,
        zone,
        "\",direction=\"in\"} "@,
        spec_dec(s.bytes_in as int),
    ) + spec_line1(
        prefix,
        "server_bytes_total{zone=\""@,
        zone,
        "\",direction=\"out\"} "@,
        spec_dec(s.bytes_out as int),
    )
}

/// One zone's five `server_responses_total` series lines.
pub open spec fn spec_server_responses_line(
    prefix: Seq<char>,
    zone: Seq<char>,
    s: VtsServerStats,
) -> Seq<char> {
    spec_line1(
        prefix,
        "server_responses_total{zone=\""@,
        zone,
        "\",status=\"1xx\"} "@,
        spec_dec(s.responses.status_1xx as int),
    ) + spec_line1(
        prefix,
        "server_responses_total{zone=\""@,
        zone,
        "\",status=\"2xx\"} "@,
        spec_dec(s.responses.status_2xx as int),
    ) + spec_line1(
        prefix,
        "server_responses_total{zone=\""@,
        zone,
        "\",status=\"3xx\"} "@,
        spec_dec(s.responses.status_3xx as int),
    ) + spec_line1(
        prefix,
        "server_responses_total{zone=\""@,
        zone,
        "\",status=\"4xx\"} "@,
        spec_dec(s.responses.status_4xx as int),
    ) + spec_line1(
        prefix,
        "server_responses_total{zone=\""@,
        zone,
        "\",status=\"5xx\"} "@,
        spec_dec(s.responses.status_5xx as int),
    )
}

/// One zone's `server_request_seconds` lines: average, minimum and
/// maximum, stored milliseconds over one thousand, six decimal places.
pub open spec fn spec_server_seconds_line(
    prefix: Seq<char>,
    zone: Seq<char>,
    s: VtsServerStats,
) -> Seq<char> {
    spec_line1(
        prefix,
        "server_request_seconds{zone=\""@,
        zone,
        "\",type=\"avg\"} "@,
        spec_seconds6(scaled_ratio(s.request_times.total, s.request_times.count, 1000)),
    ) + spec_line1(
        prefix,
        "server_request_seconds{zone=\""@,
        zone,
        "\",type=\"min\"} "@,
        spec_seconds6(
            scaled_ratio(
                if s.request_times.min_set {
                    s.request_times.min
                } else {
                    0
                },
                1,
                1000,
            ),
        ),
    ) + spec_line1(
        prefix,
        "server_request_seconds{zone=\""@,
        zone,
        "\",type=\"max\"} "@,
        spec_seconds6(scaled_ratio(s.request_times.max, 1, 1000)),
    )
}

/// One server family's series lines over the first `i` zones; `which`
/// selects the family.
pub open spec fn spec_server_lines(
    which: int,
    prefix: Seq<char>,
    keys: Seq<Seq<char>>,
    vals: Seq<VtsServerStats>,
    i: int,
) -> Seq<char>
    decreases i,
{
    if i <= 0 {
        Seq::empty()
    } else {
        spec_server_lines(which, prefix, keys, vals, i - 1) + if which == 0 {
            spec_server_requests_line(prefix, keys[i - 1], vals[i - 1])
        } else if which == 1 {
            spec_server_bytes_line(prefix, keys[i - 1], vals[i - 1])
        } else if which == 2 {
            spec_server_responses_line(prefix, keys[i - 1], vals[i - 1])
        } else {
            spec_server_seconds_line(prefix, keys[i - 1], vals[i - 1])
        }
    }
}

/// The four server-zone families, each with its header, over a snapshot
/// given as parallel key/value sequences.
pub open spec fn spec_format_server_stats(
    prefix: Seq<char>,
    keys: Seq<Seq<char>>,
    vals: Seq<VtsServerStats>,
) -> Seq<char> {
    let n = keys.len() as int;
    spec_header(
        prefix,
        "server_requests_total Total number of requests\n"@,
        "server_requests_total counter\n"@,
    ) + spec_server_lines(0, prefix, keys, vals, n) + "\n"@ + spec_header(
        prefix,
        "server_bytes_total Total bytes transferred\n"@,
        "server_bytes_total counter\n"@,
    ) + spec_server_lines(1, prefix, keys, vals, n) + "\n"@ + spec_header(
        prefix,
        "server_responses_total Total responses by status code\n"@,
        "server_responses_total counter\n"@,
    ) + spec_server_lines(2, prefix, keys, vals, n) + "\n"@ + spec_header(
        prefix,
        "server_request_seconds Request processing time\n"@,
        "server_request_seconds gauge\n"@,
    ) + spec_server_lines(3, prefix, keys, vals, n) + "\n"@
}

/// One zone's eight `cache_requests_total` series lines.
pub open spec fn spec_cache_requests_line(
    prefix: Seq<char>,
    zone: Seq<char>,
    z: CacheZoneStats,
) -> Seq<char> {
    spec_line1(
        prefix,
        "cache_requests_total{zone=\""@,
        zone,
        "\",status=\"hit\"} "@,
        spec_dec(z.cache.hit as int),
    ) + spec_line1(
        prefix,
        "cache_requests_total{zone=\""@,
        zone,
        "\",status=\"miss\"} "@,
        spec_dec(z.cache.miss as int),
    ) + spec_line1(
        prefix,
        "cache_requests_total{zone=\""@,
        zone,
        "\",status=\"bypass\"} "@,
        spec_dec(z.cache.bypass as int),
    ) + spec_line1(
        prefix,
        "cache_requests_total{zone=\""@,
        zone,
        "\",status=\"expired\"} "@,
        spec_dec(z.cache.expired as int),
    ) + spec_line1(
        prefix,
        "cache_requests_total{zone=\""@,
        zone,
        "\",status=\"stale\"} "@,
        spec_dec(z.cache.stale as int),
    ) + spec_line1(
        prefix,
        "cache_requests_total{zone=\""@,
        zone,
        "\",status=\"updating\"} "@,
        spec_dec(z.cache.updating as int),
    ) + spec_line1(
        prefix,
        "cache_requests_total{zone=\""@,
        zone,
        "\",status=\"revalidated\"} "@,
        spec_dec(z.cache.revalidated as int),
    ) + spec_line1(
        prefix,
        "cache_requests_total{zone=\""@,
        zone,
        "\",status=\"scarce\"} "@,
        spec_dec(z.cache.scarce as int),
    )
}

/// One zone's `cache_size_bytes` pair of series lines.
pub open spec fn spec_cache_size_line(
    prefix: Seq<char>,
    zone: Seq<char>,
    z: CacheZoneStats,
) -> Seq<char> {
    spec_line1(
        prefix,
        "cache_size_bytes{zone=\""@,
        zone,
        "\",type=\"max\"} "@,
        spec_dec(z.size.max_size as int),
    ) + spec_line1(
        prefix,
        "cache_size_bytes{zone=\""@,
        zone,
        "\",type=\"used\"} "@,
        spec_dec(z.size.used_size as int),
    )
}

/// One zone's `cache_hit_ratio` series line, two decimal places.
pub open spec fn spec_cache_ratio_line(
    prefix: Seq<char>,
    zone: Seq<char>,
    z: CacheZoneStats,
) -> Seq<char> {
    spec_line1(
        prefix,
        "cache_hit_ratio{zone=\""@,
        zone,
        "\"} "@,
        spec_percent2(scaled_ratio(z.cache.hit, spec_total_requests(z.cache), 10000)),
    )
}

/// One cache family's series lines over the first `i` zones.
pub open spec fn spec_cache_lines(
    which: int,
    prefix: Seq<char>,
    keys: Seq<Seq<char>>,
    vals: Seq<CacheZoneStats>,
    i: int,
) -> Seq<char>
    decreases i,
{
    if i <= 0 {
        Seq::empty()
    } else {
        spec_cache_lines(which, prefix, keys, vals, i - 1) + if which == 0 {
            spec_cache_requests_line(prefix, keys[i - 1], vals[i - 1])
        } else if which == 1 {
            spec_cache_size_line(prefix, keys[i - 1], vals[i - 1])
        } else {
            spec_cache_ratio_line(prefix, keys[i - 1], vals[i - 1])
        }
    }
}

/// The three cache families, each with its header.
pub open spec fn spec_format_cache_stats(
    prefix: Seq<char>,
    keys: Seq<Seq<char>>,
    vals: Seq<CacheZoneStats>,
) -> Seq<char> {
    let n = keys.len() as int;
    spec_header(
        prefix,
        "cache_requests_total Total cache requests by status\n"@,
        "cache_requests_total counter\n"@,
    ) + spec_cache_lines(0, prefix, keys, vals, n) + "\n"@ + spec_header(
        prefix,
        "cache_size_bytes Cache size in bytes\n"@,
        "cache_size_bytes gauge\n"@,
    ) + spec_cache_lines(1, prefix, keys, vals, n) + "\n"@ + spec_header(
        prefix,
        "cache_hit_ratio Cache hit ratio percentage\n"@,
        "cache_hit_ratio gauge\n"@,
    ) + spec_cache_lines(2, prefix, keys, vals, n) + "\n"@
}

/// One member's series text for one upstream family.
pub open spec fn spec_upstream_member_line(
    which: int,
    prefix: Seq<char>,
    zone: Seq<char>,
    addr: Seq<char>,
    s: UpstreamServerStats,
) -> Seq<char> {
    if which == 0 {
        spec_line2(
            prefix,
            "upstream_requests_total{upstream=\""@,
            zone,
            "\",server=\""@,
            addr,
            "\"} "@,
            spec_dec(s.request_counter as int),
        )
    } else if which == 1 {
        spec_line2(
            prefix,
            "upstream_bytes_total{upstream=\""@,
            zone,
            "\",server=\""@,
            addr,
            "\",direction=\"in\"} "@,
            spec_dec(s.in_bytes as int),
        ) + spec_line2(
            prefix,
            "upstream_bytes_total{upstream=\""@,
            zone,
            "\",server=\""@,
            addr,
            "\",direction=\"out\"} "@,
            spec_dec(s.out_bytes as int),
        )
    } else if which == 2 {
        spec_line2(
            prefix,
            "upstream_response_seconds{upstream=\""@,
            zone,
            "\",server=\""@,
            addr,
            "\",type=\"request_avg\"} "@,
            spec_seconds6(scaled_ratio(s.request_time_total, s.request_time_counter, 1000)),
        ) + spec_line2(
            prefix,
            "upstream_response_seconds{upstream=\""@,
            zone,
            "\",server=\""@,
            addr,
            "\",type=\"upstream_avg\"} "@,
            spec_seconds6(scaled_ratio(s.response_time_total, s.response_time_counter, 1000)),
        ) + spec_line2(
            prefix,
            "upstream_response_seconds{upstream=\""@,
            zone,
            "\",server=\""@,
            addr,
            "\",type=\"request_total\"} "@,
            spec_seconds6(scaled_ratio(s.request_time_total, 1, 1000)),
        ) + spec_line2(
            prefix,
            "upstream_response_seconds{upstream=\""@,
            zone,
            "\",server=\""@,
            addr,
            "\",type=\"upstream_total\"} "@,
            spec_seconds6(scaled_ratio(s.response_time_total, 1, 1000)),
        )
    } else if which == 3 {
        spec_line2(
            prefix,
            "upstream_server_up{upstream=\""@,
            zone,
            "\",server=\""@,
            addr,
            "\"} "@,
            spec_dec(
                if s.down {
                    0
                } else {
                    1
                },
            ),
        )
    } else {
        spec_line2(
            prefix,
            "upstream_responses_total{upstream=\""@,
            zone,
            "\",server=\""@,
            addr,
            "\",status=\"1xx\"} "@,
            spec_dec(s.responses.status_1xx as int),
        ) + spec_line2(
            prefix,
            "upstream_responses_total{upstream=\""@,
            zone,
            "\",server=\""@,
            addr,
            "\",status=\"2xx\"} "@,
            spec_dec(s.responses.status_2xx as int),
        ) + spec_line2(
            prefix,
            "upstream_responses_total{upstream=\""@,
            zone,
            "\",server=\""@,
            addr,
            "\",status=\"3xx\"} "@,
            spec_dec(s.responses.status_3xx as int),
        ) + spec_line2(
            prefix,
            "upstream_responses_total{upstream=\""@,
            zone,
            "\",server=\""@,
            addr,
            "\",status=\"4xx\"} "@,
            spec_dec(s.responses.status_4xx as int),
        ) + spec_line2(
            prefix,
            "upstream_responses_total{upstream=\""@,
            zone,
            "\",server=\""@,
            addr,
            "\",status=\"5xx\"} "@,
            spec_dec(s.responses.status_5xx as int),
        )
    }
}

/// One upstream family's series lines over the first `j` members of a zone.
pub open spec fn spec_upstream_zone_lines(
    which: int,
    prefix: Seq<char>,
    zone: Seq<char>,
    z: UpstreamZone,
    j: int,
) -> Seq<char>
    decreases j,
{
    if j <= 0 {
        Seq::empty()
    } else {
        spec_upstream_zone_lines(which, prefix, zone, z, j - 1) + spec_upstream_member_line(
            which,
            prefix,
            zone,
            z.server_keys()[j - 1],
            z.server_vals()[j - 1],
        )
    }
}

/// One upstream family's series lines over the first `i` zones.
pub open spec fn spec_upstream_lines(
    which: int,
    prefix: Seq<char>,
    keys: Seq<Seq<char>>,
    vals: Seq<UpstreamZone>,
    i: int,
) -> Seq<char>
    decreases i,
{
    if i <= 0 {
        Seq::empty()
    } else {
        spec_upstream_lines(which, prefix, keys, vals, i - 1) + spec_upstream_zone_lines(
            which,
            prefix,
            keys[i - 1],
            vals[i - 1],
            vals[i - 1].server_keys().len() as int,
        )
    }
}

/// The five upstream families, each with its header.
pub open spec fn spec_format_upstream_stats(
    prefix: Seq<char>,
    keys: Seq<Seq<char>>,
    vals: Seq<UpstreamZone>,
) -> Seq<char> {
    let n = keys.len() as int;
    spec_header(
        prefix,
        "upstream_requests_total Total upstream requests\n"@,
        "upstream_requests_total counter\n"@,
    ) + spec_upstream_lines(0, prefix, keys, vals, n) + "\n"@ + spec_header(
        prefix,
        "upstream_bytes_total Total bytes transferred to/from upstream\n"@,
        "upstream_bytes_total counter\n"@,
    ) + spec_upstream_lines(1, prefix, keys, vals, n) + "\n"@ + spec_header(
        prefix,
        "upstream_response_seconds Upstream response time statistics\n"@,
        "upstream_response_seconds gauge\n"@,
    ) + spec_upstream_lines(2, prefix, keys, vals, n) + "\n"@ + spec_header(
        prefix,
        "upstream_server_up Upstream server status (1=up, 0=down)\n"@,
        "upstream_server_up gauge\n"@,
    ) + spec_upstream_lines(3, prefix, keys, vals, n) + "\n"@ + spec_header(
        prefix,
        "upstream_responses_total Upstream responses by status code\n"@,
        "upstream_responses_total counter\n"@,
    ) + spec_upstream_lines(4, prefix, keys, vals, n) + "\n"@
}

impl PrometheusFormatter {
    /// A formatter with the default metric prefix.
    pub fn new() -> (r: PrometheusFormatter)
        ensures
            r.metric_prefix@ == "nginx_vts_"@,
    {
        PrometheusFormatter { metric_prefix: String::from_str("nginx_vts_") }
    }

    /// A formatter with a custom metric prefix.
    pub fn with_prefix(prefix: &str) -> (r: PrometheusFormatter)
        ensures
            r.metric_prefix@ == prefix@,
    {
        PrometheusFormatter { metric_prefix: prefix.to_owned() }
    }

    /// Render the `info` family.
    pub fn format_nginx_info(&self, hostname: &str, version: &str) -> (r: String)
        ensures
            r@ == spec_nginx_info(self.metric_prefix@, hostname@, version@),
    {
        let mut out = String::new();
        push_header(
            &mut out,
            &self.metric_prefix,
            "info Nginx VTS module information\n",
            "info gauge\n",
        );
        out.append(self.metric_prefix.as_str());
        out.append("info{hostname=\"");
        out.append(hostname);
        out.append("\",version=\"");
        out.append(version);
        out.append("\"} 1\n\n");
        proof {
            assert(out@ =~= spec_nginx_info(self.metric_prefix@, hostname@, version@));
        }
        out
    }

    /// Render the connection gauge and total families.
    pub fn format_connection_stats(&self, connections: &VtsConnectionStats) -> (r: String)
        ensures
            r@ == spec_connection_stats(self.metric_prefix@, *connections),
    {
        let prefix = &self.metric_prefix;
        let mut out = String::new();
        push_header(
            &mut out,
            prefix,
            "connections Current nginx connections\n",
            "connections gauge\n",
        );
        push_line1_dec(&mut out, prefix, "connections{state=\"", "active", "\"} ", connections.active);
        push_line1_dec(
            &mut out,
            prefix,
            "connections{state=\"",
            "reading",
            "\"} ",
            connections.reading,
        );
        push_line1_dec(
            &mut out,
            prefix,
            "connections{state=\"",
            "writing",
            "\"} ",
            connections.writing,
        );
        push_line1_dec(
            &mut out,
            prefix,
            "connections{state=\"",
            "waiting",
            "\"} ",
            connections.waiting,
        );
        out.append("\n");
        push_header(
            &mut out,
            prefix,
            "connections_total Total nginx connections\n",
            "connections_total counter\n",
        );
        push_line1_dec(
            &mut out,
            prefix,
            "connections_total{state=\"",
            "accepted",
            "\"} ",
            connections.accepted,
        );
        push_line1_dec(
            &mut out,
            prefix,
            "connections_total{state=\"",
            "handled",
            "\"} ",
            connections.handled,
        );
        out.append("\n");
        proof {
            assert(out@ =~= spec_connection_stats(self.metric_prefix@, *connections));
        }
        out
    }

    /// Render the four server-zone families.
    pub fn format_server_stats(&self, server_stats: &StrTable<VtsServerStats>) -> (r: String)
        requires
            server_stats.wf(),
        ensures
            r@ == spec_format_server_stats(
                self.metric_prefix@,
                server_stats.key_seq(),
                server_stats.val_seq(),
            ),
    {
        proof {
            server_stats.lemma_wf();
        }
        let prefix = &self.metric_prefix;
        let ghost p = self.metric_prefix@;
        let ghost keys = server_stats.key_seq();
        let ghost vals = server_stats.val_seq();
        let n = server_stats.len();
        let mut out = String::new();

        push_header(
            &mut out,
            prefix,
            "server_requests_total Total number of requests\n",
            "server_requests_total counter\n",
        );
        let ghost pre1 = out@;
        let mut i: usize = 0;
        while i < n
            invariant
                prefix@ == p,
                server_stats.wf(),
                keys == server_stats.key_seq(),
                vals == server_stats.val_seq(),
                n == keys.len(),
                n == vals.len(),
                i <= n,
                out@ == pre1 + spec_server_lines(0, p, keys, vals, i as int),
            decreases n - i,
        {
            let key = server_stats.key_at(i);
            let s = server_stats.val_at(i);
            push_line1_dec(
                &mut out,
                prefix,
                "server_requests_total{zone=\"",
                key.as_str(),
                "\"} ",
                s.requests,
            );
            proof {
                assert(out@ =~= pre1 + spec_server_lines(0, p, keys, vals, i + 1));
            }
            i += 1;
        }
        out.append("\n");

        push_header(
            &mut out,
            prefix,
            "server_bytes_total Total bytes transferred\n",
            "server_bytes_total counter\n",
        );
        let ghost pre2 = out@;
        let mut i: usize = 0;
        while i < n
            invariant
                prefix@ == p,
                server_stats.wf(),
                keys == server_stats.key_seq(),
                vals == server_stats.val_seq(),
                n == keys.len(),
                n == vals.len(),
                i <= n,
                out@ == pre2 + spec_server_lines(1, p, keys, vals, i as int),
            decreases n - i,
        {
            let key = server_stats.key_at(i);
            let s = server_stats.val_at(i);
            push_line1_dec(
                &mut out,
                prefix,
                "server_bytes_total{zone=\"",
                key.as_str(),
                "\",direction=\"in\"} ",
                s.bytes_in,
            );
            push_line1_dec(
                &mut out,
                prefix,
                "server_bytes_total{zone=\"",
                key.as_str(),
                "\",direction=\"out\"} ",
                s.bytes_out,
            );
            proof {
                assert(out@ =~= pre2 + spec_server_lines(1, p, keys, vals, i + 1));
            }
            i += 1;
        }
        out.append("\n");

        push_header(
            &mut out,
            prefix,
            "server_responses_total Total responses by status code\n",
            "server_responses_total counter\n",
        );
        let ghost pre3 = out@;
        let mut i: usize = 0;
        while i < n
            invariant
                prefix@ == p,
                server_stats.wf(),
                keys == server_stats.key_seq(),
                vals == server_stats.val_seq(),
                n == keys.len(),
                n == vals.len(),
                i <= n,
                out@ == pre3 + spec_server_lines(2, p, keys, vals, i as int),
            decreases n - i,
        {
            let key = server_stats.key_at(i);
            let s = server_stats.val_at(i);
            push_line1_dec(
                &mut out,
                prefix,
                "server_responses_total{zone=\"",
                key.as_str(),
                "\",status=\"1xx\"} ",
                s.responses.status_1xx,
            );
            push_line1_dec(
                &mut out,
                prefix,
                "server_responses_total{zone=\"",
                key.as_str(),
                "\",status=\"2xx\"} ",
                s.responses.status_2xx,
            );
            push_line1_dec(
                &mut out,
                prefix,
                "server_responses_total{zone=\"",
                key.as_str(),
                "\",status=\"3xx\"} ",
                s.responses.status_3xx,
            );
            push_line1_dec(
                &mut out,
                prefix,
                "server_responses_total{zone=\"",
                key.as_str(),
                "\",status=\"4xx\"} ",
                s.responses.status_4xx,
            );
            push_line1_dec(
                &mut out,
                prefix,
                "server_responses_total{zone=\"",
                key.as_str(),
                "\",status=\"5xx\"} ",
                s.responses.status_5xx,
            );
            proof {
                assert(out@ =~= pre3 + spec_server_lines(2, p, keys, vals, i + 1));
            }
            i += 1;
        }
        out.append("\n");

        push_header(
            &mut out,
            prefix,
            "server_request_seconds Request processing time\n",
            "server_request_seconds gauge\n",
        );
        let ghost pre4 = out@;
        let mut i: usize = 0;
        while i < n
            invariant
                prefix@ == p,
                server_stats.wf(),
                keys == server_stats.key_seq(),
                vals == server_stats.val_seq(),
                n == keys.len(),
                n == vals.len(),
                i <= n,
                out@ == pre4 + spec_server_lines(3, p, keys, vals, i as int),
            decreases n - i,
        {
            let key = server_stats.key_at(i);
            let s = server_stats.val_at(i);
            push_line1_sec(
                &mut out,
                prefix,
                "server_request_seconds{zone=\"",
                key.as_str(),
                "\",type=\"avg\"} ",
                ratio_scaled(s.request_times.total, s.request_times.count, 1000),
            );
            let min_ms: u64 = if s.request_times.min_set {
                s.request_times.min
            } else {
                0
            };
            push_line1_sec(
                &mut out,
                prefix,
                "server_request_seconds{zone=\"",
                key.as_str(),
                "\",type=\"min\"} ",
                ratio_scaled(min_ms, 1, 1000),
            );
            push_line1_sec(
                &mut out,
                prefix,
                "server_request_seconds{zone=\"",
                key.as_str(),
                "\",type=\"max\"} ",
                ratio_scaled(s.request_times.max, 1, 1000),
            );
            proof {
                assert(out@ =~= pre4 + spec_server_lines(3, p, keys, vals, i + 1));
            }
            i += 1;
        }
        out.append("\n");
        proof {
            assert(out@ =~= spec_format_server_stats(p, keys, vals));
        }
        out
    }

    /// Render the three cache families.
    #[verifier::rlimit(60)]
    pub fn format_cache_stats(&self, cache_zones: &StrTable<CacheZoneStats>) -> (r: String)
        requires
            cache_zones.wf(),
        ensures
            r@ == spec_format_cache_stats(
                self.metric_prefix@,
                cache_zones.key_seq(),
                cache_zones.val_seq(),
            ),
    {
        proof {
            cache_zones.lemma_wf();
        }
        let prefix = &self.metric_prefix;
        let ghost p = self.metric_prefix@;
        let ghost keys = cache_zones.key_seq();
        let ghost vals = cache_zones.val_seq();
        let n = cache_zones.len();
        let mut out = String::new();

        push_header(
            &mut out,
            prefix,
            "cache_requests_total Total cache requests by status\n",
            "cache_requests_total counter\n",
        );
        let ghost pre1 = out@;
        let mut i: usize = 0;
        while i < n
            invariant
                prefix@ == p,
                cache_zones.wf(),
                keys == cache_zones.key_seq(),
                vals == cache_zones.val_seq(),
                n == keys.len(),
                n == vals.len(),
                i <= n,
                out@ == pre1 + spec_cache_lines(0, p, keys, vals, i as int),
            decreases n - i,
        {
            let key = cache_zones.key_at(i);
            let z = cache_zones.val_at(i);
            push_line1_dec(
                &mut out,
                prefix,
                "cache_requests_total{zone=\"",
                key.as_str(),
                "\",status=\"hit\"} ",
                z.cache.hit,
            );
            push_line1_dec(
                &mut out,
                prefix,
                "cache_requests_total{zone=\"",
                key.as_str(),
                "\",status=\"miss\"} ",
                z.cache.miss,
            );
            push_line1_dec(
                &mut out,
                prefix,
                "cache_requests_total{zone=\"",
                key.as_str(),
                "\",status=\"bypass\"} ",
                z.cache.bypass,
            );
            push_line1_dec(
                &mut out,
                prefix,
                "cache_requests_total{zone=\"",
                key.as_str(),
                "\",status=\"expired\"} ",
                z.cache.expired,
            );
            push_line1_dec(
                &mut out,
                prefix,
                "cache_requests_total{zone=\"",
                key.as_str(),
                "\",status=\"stale\"} ",
                z.cache.stale,
            );
            push_line1_dec(
                &mut out,
                prefix,
                "cache_requests_total{zone=\"",
                key.as_str(),
                "\",status=\"updating\"} ",
                z.cache.updating,
            );
            push_line1_dec(
                &mut out,
                prefix,
                "cache_requests_total{zone=\"",
                key.as_str(),
                "\",status=\"revalidated\"} ",
                z.cache.revalidated,
            );
            push_line1_dec(
                &mut out,
                prefix,
                "cache_requests_total{zone=\"",
                key.as_str(),
                "\",status=\"scarce\"} ",
                z.cache.scarce,
            );
            proof {
                assert(out@ =~= pre1 + spec_cache_lines(0, p, keys, vals, i + 1));
            }
            i += 1;
        }
        out.append("\n");

        push_header(
            &mut out,
            prefix,
            "cache_size_bytes Cache size in bytes\n",
            "cache_size_bytes gauge\n",
        );
        let ghost pre2 = out@;
        let mut i: usize = 0;
        while i < n
            invariant
                prefix@ == p,
                cache_zones.wf(),
                keys == cache_zones.key_seq(),
                vals == cache_zones.val_seq(),
                n == keys.len(),
                n == vals.len(),
                i <= n,
                out@ == pre2 + spec_cache_lines(1, p, keys, vals, i as int),
            decreases n - i,
        {
            let key = cache_zones.key_at(i);
            let z = cache_zones.val_at(i);
            push_line1_dec(
                &mut out,
                prefix,
                "cache_size_bytes{zone=\"",
                key.as_str(),
                "\",type=\"max\"} ",
                z.size.max_size,
            );
            push_line1_dec(
                &mut out,
                prefix,
                "cache_size_bytes{zone=\"",
                key.as_str(),
                "\",type=\"used\"} ",
                z.size.used_size,
            );
            proof {
                assert(out@ =~= pre2 + spec_cache_lines(1, p, keys, vals, i + 1));
            }
            i += 1;
        }
        out.append("\n");

        push_header(
            &mut out,
            prefix,
            "cache_hit_ratio Cache hit ratio percentage\n",
            "cache_hit_ratio gauge\n",
        );
        let ghost pre3 = out@;
        let mut i: usize = 0;
        while i < n
            invariant
                prefix@ == p,
                cache_zones.wf(),
                keys == cache_zones.key_seq(),
                vals == cache_zones.val_seq(),
                n == keys.len(),
                n == vals.len(),
                i <= n,
                out@ == pre3 + spec_cache_lines(2, p, keys, vals, i as int),
            decreases n - i,
        {
            let key = cache_zones.key_at(i);
            let z = cache_zones.val_at(i);
            let total = z.cache.total_requests();
            push_line1_pct(
                &mut out,
                prefix,
                "cache_hit_ratio{zone=\"",
                key.as_str(),
                "\"} ",
                ratio_scaled(z.cache.hit, total, 10000),
            );
            proof {
                assert(out@ =~= pre3 + spec_cache_lines(2, p, keys, vals, i + 1));
            }
            i += 1;
        }
        out.append("\n");
        proof {
            assert(out@ =~= spec_format_cache_stats(p, keys, vals));
        }
        out
    }

    /// Render the five upstream families.
    pub fn format_upstream_stats(&self, upstream_zones: &StrTable<UpstreamZone>) -> (r: String)
        requires
            upstream_zones.wf(),
            forall|i: int|
                0 <= i < upstream_zones.val_seq().len() ==> (#[trigger] upstream_zones.val_seq()[
                    i
                ]).wf(),
        ensures
            r@ == spec_format_upstream_stats(
                self.metric_prefix@,
                upstream_zones.key_seq(),
                upstream_zones.val_seq(),
            ),
    {
        let prefix = &self.metric_prefix;
        let ghost p = self.metric_prefix@;
        let ghost keys = upstream_zones.key_seq();
        let ghost vals = upstream_zones.val_seq();
        let mut out = String::new();

        push_header(
            &mut out,
            prefix,
            "upstream_requests_total Total upstream requests\n",
            "upstream_requests_total counter\n",
        );
        self.upstream_family(&mut out, 0, upstream_zones);
        out.append("\n");
        push_header(
            &mut out,
            prefix,
            "upstream_bytes_total Total bytes transferred to/from upstream\n",
            "upstream_bytes_total counter\n",
        );
        self.upstream_family(&mut out, 1, upstream_zones);
        out.append("\n");
        push_header(
            &mut out,
            prefix,
            "upstream_response_seconds Upstream response time statistics\n",
            "upstream_response_seconds gauge\n",
        );
        self.upstream_family(&mut out, 2, upstream_zones);
        out.append("\n");
        push_header(
            &mut out,
            prefix,
            "upstream_server_up Upstream server status (1=up, 0=down)\n",
            "upstream_server_up gauge\n",
        );
        self.upstream_family(&mut out, 3, upstream_zones);
        out.append("\n");
        push_header(
            &mut out,
            prefix,
            "upstream_responses_total Upstream responses by status code\n",
            "upstream_responses_total counter\n",
        );
        self.upstream_family(&mut out, 4, upstream_zones);
        out.append("\n");
        proof {
            assert(out@ =~= spec_format_upstream_stats(p, keys, vals));
        }
        out
    }

    /// Append one upstream family's series lines for every zone and member.
    #[verifier::rlimit(60)]
    fn upstream_family(
        &self,
        out: &mut String,
        which: usize,
        upstream_zones: &StrTable<UpstreamZone>,
    )
        requires
            which <= 4,
            upstream_zones.wf(),
            forall|i: int|
                0 <= i < upstream_zones.val_seq().len() ==> (#[trigger] upstream_zones.val_seq()[
                    i
                ]).wf(),
        ensures
            final(out)@ == old(out)@ + spec_upstream_lines(
                which as int,
                self.metric_prefix@,
                upstream_zones.key_seq(),
                upstream_zones.val_seq(),
                upstream_zones.key_seq().len() as int,
            ),
    {
        proof {
            upstream_zones.lemma_wf();
        }
        let prefix = &self.metric_prefix;
        let ghost p = self.metric_prefix@;
        let ghost keys = upstream_zones.key_seq();
        let ghost vals = upstream_zones.val_seq();
        let ghost pre = out@;
        let n = upstream_zones.len();
        let mut i: usize = 0;
        while i < n
            invariant
                prefix@ == p,
                which <= 4,
                upstream_zones.wf(),
                keys == upstream_zones.key_seq(),
                vals == upstream_zones.val_seq(),
                forall|k: int| 0 <= k < vals.len() ==> (#[trigger] vals[k]).wf(),
                n == keys.len(),
                n == vals.len(),
                i <= n,
                out@ == pre + spec_upstream_lines(which as int, p, keys, vals, i as int),
            decreases n - i,
        {
            let zone_name = upstream_zones.key_at(i);
            let zone = upstream_zones.val_at(i);
            let ghost zpre = out@;
            proof {
                zone.servers.lemma_wf();
            }
            let m = zone.servers.len();
            let mut j: usize = 0;
            while j < m
                invariant
                    prefix@ == p,
                    which <= 4,
                    zone.wf(),
                    zone_name@ == keys[i as int],
                    0 <= i < keys.len(),
                    m == zone.server_keys().len(),
                    m == zone.server_vals().len(),
                    j <= m,
                    out@ == zpre + spec_upstream_zone_lines(
                        which as int,
                        p,
                        zone_name@,
                        *zone,
                        j as int,
                    ),
                decreases m - j,
            {
                let addr = zone.servers.key_at(j);
                let s = zone.servers.val_at(j);
                if which == 0 {
                    push_line2_dec(
                        out,
                        prefix,
                        "upstream_requests_total{upstream=\"",
                        zone_name.as_str(),
                        "\",server=\"",
                        addr.as_str(),
                        "\"} ",
                        s.request_counter,
                    );
                } else if which == 1 {
                    push_line2_dec(
                        out,
                        prefix,
                        "upstream_bytes_total{upstream=\"",
                        zone_name.as_str(),
                        "\",server=\"",
                        addr.as_str(),
                        "\",direction=\"in\"} ",
                        s.in_bytes,
                    );
                    push_line2_dec(
                        out,
                        prefix,
                        "upstream_bytes_total{upstream=\"",
                        zone_name.as_str(),
                        "\",server=\"",
                        addr.as_str(),
                        "\",direction=\"out\"} ",
                        s.out_bytes,
                    );
                } else if which == 2 {
                    push_line2_sec(
                        out,
                        prefix,
                        "upstream_response_seconds{upstream=\"",
                        zone_name.as_str(),
                        "\",server=\"",
                        addr.as_str(),
                        "\",type=\"request_avg\"} ",
                        ratio_scaled(s.request_time_total, s.request_time_counter, 1000),
                    );
                    push_line2_sec(
                        out,
                        prefix,
                        "upstream_response_seconds{upstream=\"",
                        zone_name.as_str(),
                        "\",server=\"",
                        addr.as_str(),
                        "\",type=\"upstream_avg\"} ",
                        ratio_scaled(s.response_time_total, s.response_time_counter, 1000),
                    );
                    push_line2_sec(
                        out,
                        prefix,
                        "upstream_response_seconds{upstream=\"",
                        zone_name.as_str(),
                        "\",server=\"",
                        addr.as_str(),
                        "\",type=\"request_total\"} ",
                        ratio_scaled(s.request_time_total, 1, 1000),
                    );
                    push_line2_sec(
                        out,
                        prefix,
                        "upstream_response_seconds{upstream=\"",
                        zone_name.as_str(),
                        "\",server=\"",
                        addr.as_str(),
                        "\",type=\"upstream_total\"} ",
                        ratio_scaled(s.response_time_total, 1, 1000),
                    );
                } else if which == 3 {
                    let up: u64 = if s.down {
                        0
                    } else {
                        1
                    };
                    push_line2_dec(
                        out,
                        prefix,
                        "upstream_server_up{upstream=\"",
                        zone_name.as_str(),
                        "\",server=\"",
                        addr.as_str(),
                        "\"} ",
                        up,
                    );
                } else {
                    push_line2_dec(
                        out,
                        prefix,
                        "upstream_responses_total{upstream=\"",
                        zone_name.as_str(),
                        "\",server=\"",
                        addr.as_str(),
                        "\",status=\"1xx\"} ",
                        s.responses.status_1xx,
                    );
                    push_line2_dec(
                        out,
                        prefix,
                        "upstream_responses_total{upstream=\"",
                        zone_name.as_str(),
                        "\",server=\"",
                        addr.as_str(),
                        "\",status=\"2xx\"} ",
                        s.responses.status_2xx,
                    );
                    push_line2_dec(
                        out,
                        prefix,
                        "upstream_responses_total{upstream=\"",
                        zone_name.as_str(),
                        "\",server=\"",
                        addr.as_str(),
                        "\",status=\"3xx\"} ",
                        s.responses.status_3xx,
                    );
                    push_line2_dec(
                        out,
                        prefix,
                        "upstream_responses_total{upstream=\"",
                        zone_name.as_str(),
                        "\",server=\"",
                        addr.as_str(),
                        "\",status=\"4xx\"} ",
                        s.responses.status_4xx,
                    );
                    push_line2_dec(
                        out,
                        prefix,
                        "upstream_responses_total{upstream=\"",
                        zone_name.as_str(),
                        "\",server=\"",
                        addr.as_str(),
                        "\",status=\"5xx\"} ",
                        s.responses.status_5xx,
                    );
                }
                proof {
                    assert(out@ =~= zpre + spec_upstream_zone_lines(
                        which as int,
                        p,
                        zone_name@,
                        *zone,
                        j + 1,
                    ));
                }
                j += 1;
            }
            proof {
                assert(out@ =~= pre + spec_upstream_lines(which as int, p, keys, vals, i + 1));
            }
            i += 1;
        }
    }
}

/// The full status document: a comment header followed by every metric
/// family of every registry.
pub open spec fn spec_status_content(
    hostname: Seq<char>,
    version: Seq<char>,
    current_time: Seq<char>,
    manager: VtsStatsManager,
    cache: CacheStatsManager,
) -> Seq<char> {
    let p = "nginx_vts_"@;
    "# nginx-vts-rust\n# Version: "@ + version + "\n# Hostname: "@ + hostname
        + "\n# Current Time: "@ + current_time
        + "\n\n# VTS Status: Active\n# Module: nginx-vts-rust\n\n# Prometheus Metrics:\n"@
        + spec_nginx_info(p, hostname, version) + spec_connection_stats(p, manager.connections)
        + spec_format_server_stats(
        p,
        manager.stats.key_seq(),
        manager.stats.val_seq().map_values(|n: VtsNodeStats| spec_node_to_server(n)),
    ) + spec_format_upstream_stats(
        p,
        manager.upstream_zones.key_seq(),
        manager.upstream_zones.val_seq(),
    ) + spec_format_cache_stats(p, cache.cache_zones.key_seq(), cache.cache_zones.val_seq())
}

/// Render the full status document from the live registries.  The caller
/// supplies hostname, version and clock text; the core performs no I/O.
pub fn generate_vts_status_content(
    manager: &VtsStatsManager,
    cache: &CacheStatsManager,
    hostname: &str,
    version: &str,
    current_time: &str,
) -> (r: String)
    requires
        manager.wf(),
        cache.wf(),
    ensures
        r@ == spec_status_content(hostname@, version@, current_time@, *manager, *cache),
{
    let formatter = PrometheusFormatter::new();
    let mut out = String::new();
    out.append("# nginx-vts-rust\n# Version: ");
    out.append(version);
    out.append("\n# Hostname: ");
    out.append(hostname);
    out.append("\n# Current Time: ");
    out.append(current_time);
    out.append("\n\n# VTS Status: Active\n# Module: nginx-vts-rust\n\n# Prometheus Metrics:\n");
    let info = formatter.format_nginx_info(hostname, version);
    out.append(info.as_str());
    let conn = formatter.format_connection_stats(manager.get_connection_stats());
    out.append(conn.as_str());
    let server_table = manager.get_all_server_stats();
    proof {
        manager.stats.lemma_wf();
        server_table.lemma_wf();
        assert(server_table.val_seq() =~= manager.stats.val_seq().map_values(
            |n: VtsNodeStats| spec_node_to_server(n),
        ));
    }
    let server_text = formatter.format_server_stats(&server_table);
    out.append(server_text.as_str());
    proof {
        manager.upstream_zones.lemma_wf();
        assert forall|i: int|
            0 <= i < manager.upstream_zones.val_seq().len() implies (
        #[trigger] manager.upstream_zones.val_seq()[i]).wf() by {
            manager.upstream_zones.lemma_at(i);
        }
    }
    let upstream_text = formatter.format_upstream_stats(manager.get_all_upstream_zones());
    out.append(upstream_text.as_str());
    let cache_text = formatter.format_cache_stats(&cache.cache_zones);
    out.append(cache_text.as_str());
    proof {
        assert(out@ =~= spec_status_content(hostname@, version@, current_time@, *manager, *cache));
    }
    out
}

impl Default for PrometheusFormatter {
    fn default() -> (r: PrometheusFormatter)
        ensures
            r.metric_prefix@ == "nginx_vts_"@,
    {
        PrometheusFormatter::new()
    }
}

} // verus!
