//! Cache zone statistics.
//!
//! A cache zone keeps a size gauge pair (maximum and used bytes), eight
//! mutually exclusive outcome counters, and byte counters split by
//! direction, where the direction is a pure function of the outcome:
//! hit/stale/updating/revalidated read from the cache, miss/expired write
//! into it, bypass/scarce touch no cache I/O.  The zone's total request
//! count always equals the exact sum of the eight buckets; callers must
//! pre-classify, and an unrecognized outcome string is discarded with no
//! counter mutated.

use crate::arith::add_sat;
use crate::arith::ratio_scaled;
use crate::arith::sat_add;
use crate::arith::scaled_ratio;
use crate::table::StrTable;
use vstd::prelude::*;
use vstd::string::StrSliceExecFns;

verus! {

/// The eight cache outcomes a pre-classified access can report.
#[derive(Debug, Clone, Copy, PartialEq, Eq, Structural)]
pub enum CacheOutcome {
    Hit,
    Miss,
    Bypass,
    Expired,
    Stale,
    Updating,
    Revalidated,
    Scarce,
}

/// ASCII upper-case folding of one character, as a scalar value.
pub open spec fn upper_code(c: char) -> int {
    if 97 <= c as int && c as int <= 122 {
        c as int - 32
    } else {
        c as int
    }
}

/// `s` equals `t` after ASCII upper-casing of `s`; `t` is expected to be
/// already upper-case.
pub open spec fn matches_upper(s: Seq<char>, t: Seq<char>) -> bool {
    s.len() == t.len() && forall|i: int| 0 <= i < s.len() ==> upper_code(s[i]) == t[i] as int
}

fn ascii_upper_eq(s: &str, upper: &str) -> (r: bool)
    ensures
        r == matches_upper(s@, upper@),
{
    let n = s.unicode_len();
    if n != upper.unicode_len() {
        return false;
    }
    let mut i: usize = 0;
    while i < n
        invariant
            n == s@.len(),
            n == upper@.len(),
            i <= n,
            forall|j: int| 0 <= j < i ==> upper_code(s@[j]) == upper@[j] as int,
        decreases n - i,
    {
        let c: u32 = s.get_char(i) as u32;
        let u: u32 = upper.get_char(i) as u32;
        let folded: u32 = if 97 <= c && c <= 122 {
            c - 32
        } else {
            c
        };
        if folded != u {
            return false;
        }
        i += 1;
    }
    true
}

/// The outcome named by a status string, compared ASCII-case-insensitively;
/// `None` for any other string.
pub open spec fn spec_cache_outcome(s: Seq<char>) -> Option<CacheOutcome> {
    if matches_upper(s, "HIT"@) {
        Some(CacheOutcome::Hit)
    } else if matches_upper(s, "MISS"@) {
        Some(CacheOutcome::Miss)
    } else if matches_upper(s, "BYPASS"@) {
        Some(CacheOutcome::Bypass)
    } else if matches_upper(s, "EXPIRED"@) {
        Some(CacheOutcome::Expired)
    } else if matches_upper(s, "STALE"@) {
        Some(CacheOutcome::Stale)
    } else if matches_upper(s, "UPDATING"@) {
        Some(CacheOutcome::Updating)
    } else if matches_upper(s, "REVALIDATED"@) {
        Some(CacheOutcome::Revalidated)
    } else if matches_upper(s, "SCARCE"@) {
        Some(CacheOutcome::Scarce)
    } else {
        None
    }
}

impl CacheOutcome {
    /// Classify a cache status string; unknown strings yield `None`.
    pub fn parse(s: &str) -> (r: Option<CacheOutcome>)
        ensures
            r == spec_cache_outcome(s@),
    {
        if ascii_upper_eq(s, "HIT") {
            Some(CacheOutcome::Hit)
        } else if ascii_upper_eq(s, "MISS") {
            Some(CacheOutcome::Miss)
        } else if ascii_upper_eq(s, "BYPASS") {
            Some(CacheOutcome::Bypass)
        } else if ascii_upper_eq(s, "EXPIRED") {
            Some(CacheOutcome::Expired)
        } else if ascii_upper_eq(s, "STALE") {
            Some(CacheOutcome::Stale)
        } else if ascii_upper_eq(s, "UPDATING") {
            Some(CacheOutcome::Updating)
        } else if ascii_upper_eq(s, "REVALIDATED") {
            Some(CacheOutcome::Revalidated)
        } else if ascii_upper_eq(s, "SCARCE") {
            Some(CacheOutcome::Scarce)
        } else {
            None
        }
    }

    /// `true` when the outcome reads the payload from the cache.
    pub open spec fn spec_reads_cache(self) -> bool {
        self == CacheOutcome::Hit || self == CacheOutcome::Stale || self == CacheOutcome::Updating
            || self == CacheOutcome::Revalidated
    }

    /// `true` when the outcome writes the payload into the cache.
    pub open spec fn spec_writes_cache(self) -> bool {
        self == CacheOutcome::Miss || self == CacheOutcome::Expired
    }

    /// Whether the outcome reads the payload from the cache.
    pub fn reads_cache(&self) -> (r: bool)
        ensures
            r == self.spec_reads_cache(),
    {
        match self {
            CacheOutcome::Hit => true,
            CacheOutcome::Stale => true,
            CacheOutcome::Updating => true,
            CacheOutcome::Revalidated => true,
            _ => false,
        }
    }

    /// Whether the outcome writes the payload into the cache.
    pub fn writes_cache(&self) -> (r: bool)
        ensures
            r == self.spec_writes_cache(),
    {
        match self {
            CacheOutcome::Miss => true,
            CacheOutcome::Expired => true,
            _ => false,
        }
    }
}

/// The eight outcome counters of one cache zone.
#[derive(Debug, Clone, Copy, PartialEq, Eq, Structural)]
pub struct VtsCacheStats {
    pub miss: u64,
    pub bypass: u64,
    pub expired: u64,
    pub stale: u64,
    pub updating: u64,
    pub revalidated: u64,
    pub hit: u64,
    pub scarce: u64,
}

/// Exactly one bucket incremented for a classified outcome.
pub open spec fn spec_count_outcome(c: VtsCacheStats, o: CacheOutcome) -> VtsCacheStats {
    match o {
        CacheOutcome::Hit => VtsCacheStats { hit: sat_add(c.hit, 1), ..c },
        CacheOutcome::Miss => VtsCacheStats { miss: sat_add(c.miss, 1), ..c },
        CacheOutcome::Bypass => VtsCacheStats { bypass: sat_add(c.bypass, 1), ..c },
        CacheOutcome::Expired => VtsCacheStats { expired: sat_add(c.expired, 1), ..c },
        CacheOutcome::Stale => VtsCacheStats { stale: sat_add(c.stale, 1), ..c },
        CacheOutcome::Updating => VtsCacheStats { updating: sat_add(c.updating, 1), ..c },
        CacheOutcome::Revalidated => VtsCacheStats { revalidated: sat_add(c.revalidated, 1), ..c },
        CacheOutcome::Scarce => VtsCacheStats { scarce: sat_add(c.scarce, 1), ..c },
    }
}

/// The sum of the eight buckets, clamped at `u64::MAX`.
pub open spec fn spec_total_requests(c: VtsCacheStats) -> u64 {
    let total: int = c.hit + c.miss + c.bypass + c.expired + c.stale + c.updating + c.revalidated
        + c.scarce;
    if total > u64::MAX {
        u64::MAX
    } else {
        total as u64
    }
}

impl VtsCacheStats {
    pub open spec fn zero() -> VtsCacheStats {
        VtsCacheStats {
            miss: 0,
            bypass: 0,
            expired: 0,
            stale: 0,
            updating: 0,
            revalidated: 0,
            hit: 0,
            scarce: 0,
        }
    }

    /// Fresh counters, all zero.
    pub fn new() -> (r: VtsCacheStats)
        ensures
            r == VtsCacheStats::zero(),
    {
        VtsCacheStats {
            miss: 0,
            bypass: 0,
            expired: 0,
            stale: 0,
            updating: 0,
            revalidated: 0,
            hit: 0,
            scarce: 0,
        }
    }

    /// Count one classified outcome.
    pub fn update_outcome(&mut self, outcome: CacheOutcome)
        ensures
            *final(self) == spec_count_outcome(*old(self), outcome),
    {
        match outcome {
            CacheOutcome::Hit => self.hit = add_sat(self.hit, 1),
            CacheOutcome::Miss => self.miss = add_sat(self.miss, 1),
            CacheOutcome::Bypass => self.bypass = add_sat(self.bypass, 1),
            CacheOutcome::Expired => self.expired = add_sat(self.expired, 1),
            CacheOutcome::Stale => self.stale = add_sat(self.stale, 1),
            CacheOutcome::Updating => self.updating = add_sat(self.updating, 1),
            CacheOutcome::Revalidated => self.revalidated = add_sat(self.revalidated, 1),
            CacheOutcome::Scarce => self.scarce = add_sat(self.scarce, 1),
        }
    }

    /// Count one outcome given as a status string; an unrecognized string
    /// is the one accepted silent no-op.
    pub fn update_cache_status(&mut self, cache_status: &str)
        ensures
            *final(self) == match spec_cache_outcome(cache_status@) {
                Some(o) => spec_count_outcome(*old(self), o),
                None => *old(self),
            },
    {
        match CacheOutcome::parse(cache_status) {
            Some(o) => self.update_outcome(o),
            None => {},
        }
    }

    /// Total cache requests: the exact sum of the eight buckets.
    pub fn total_requests(&self) -> (r: u64)
        ensures
            r == spec_total_requests(*self),
    {
        let mut t: u64 = add_sat(self.hit, self.miss);
        t = add_sat(t, self.bypass);
        t = add_sat(t, self.expired);
        t = add_sat(t, self.stale);
        t = add_sat(t, self.updating);
        t = add_sat(t, self.revalidated);
        t = add_sat(t, self.scarce);
        t
    }

    /// Hit ratio in hundredths of a percent (`0..=10000`), rounded half up;
    /// `0` when no request was counted.
    pub fn hit_ratio(&self) -> (r: u64)
        ensures
            r == scaled_ratio(self.hit, spec_total_requests(*self), 10000),
    {
        let total = self.total_requests();
        ratio_scaled(self.hit, total, 10000)
    }
}

impl Default for VtsCacheStats {
    fn default() -> (r: VtsCacheStats)
        ensures
            r == VtsCacheStats::zero(),
    {
        VtsCacheStats::new()
    }
}

/// The size gauge pair of a cache zone: `max_size` is static, `used_size`
/// is a point-in-time reading, not accumulated.
#[derive(Debug, Clone, Copy, PartialEq, Eq, Structural)]
pub struct VtsCacheSizeStats {
    pub max_size: u64,
    pub used_size: u64,
}

impl VtsCacheSizeStats {
    pub open spec fn zero() -> VtsCacheSizeStats {
        VtsCacheSizeStats { max_size: 0, used_size: 0 }
    }

    pub fn new(max_size: u64, used_size: u64) -> (r: VtsCacheSizeStats)
        ensures
            r == (VtsCacheSizeStats { max_size, used_size }),
    {
        VtsCacheSizeStats { max_size, used_size }
    }

    pub fn update_used_size(&mut self, used_size: u64)
        ensures
            *final(self) == (VtsCacheSizeStats { used_size, ..*old(self) }),
    {
        self.used_size = used_size;
    }

    /// Utilization in hundredths of a percent, rounded half up; `0` when
    /// the maximum size is `0`.
    pub fn utilization_percentage(&self) -> (r: u64)
        ensures
            r == scaled_ratio(self.used_size, self.max_size, 10000),
    {
        ratio_scaled(self.used_size, self.max_size, 10000)
    }
}

impl Default for VtsCacheSizeStats {
    fn default() -> (r: VtsCacheSizeStats)
        ensures
            r == VtsCacheSizeStats::zero(),
    {
        VtsCacheSizeStats { max_size: 0, used_size: 0 }
    }
}

/// Combined statistics of one cache zone.
#[derive(Debug)]
pub struct CacheZoneStats {
    /// Cache zone name.
    pub name: String,
    /// Outcome counters.
    pub cache: VtsCacheStats,
    /// Size gauge pair.
    pub size: VtsCacheSizeStats,
    /// Bytes written into the cache (miss/expired accesses).
    pub bytes_written: u64,
    /// Bytes served out of the cache (hit/stale/updating/revalidated).
    pub bytes_read: u64,
}

/// One pre-classified access folded into a zone: one bucket moves, and the
/// transferred bytes go to the direction the outcome dictates, or to
/// neither for bypass/scarce.
pub open spec fn spec_cache_access(
    z: CacheZoneStats,
    outcome: CacheOutcome,
    bytes: u64,
) -> CacheZoneStats {
    CacheZoneStats {
        cache: spec_count_outcome(z.cache, outcome),
        bytes_read: if outcome.spec_reads_cache() {
            sat_add(z.bytes_read, bytes)
        } else {
            z.bytes_read
        },
        bytes_written: if outcome.spec_writes_cache() {
            sat_add(z.bytes_written, bytes)
        } else {
            z.bytes_written
        },
        ..z
    }
}

impl CacheZoneStats {
    /// A fresh zone: given name, all counters zero.
    pub open spec fn is_fresh(self, name: Seq<char>) -> bool {
        &&& self.name@ == name
        &&& self.cache == VtsCacheStats::zero()
        &&& self.size == VtsCacheSizeStats::zero()
        &&& self.bytes_written == 0
        &&& self.bytes_read == 0
    }

    pub fn new(name: &str) -> (r: CacheZoneStats)
        ensures
            r.is_fresh(name@),
    {
        CacheZoneStats {
            name: name.to_owned(),
            cache: VtsCacheStats::new(),
            size: VtsCacheSizeStats { max_size: 0, used_size: 0 },
            bytes_written: 0,
            bytes_read: 0,
        }
    }

    /// Count one status string; unknown strings change nothing.
    pub fn update_cache_status(&mut self, cache_status: &str)
        ensures
            *final(self) == match spec_cache_outcome(cache_status@) {
                Some(o) => (CacheZoneStats {
                    cache: spec_count_outcome(old(self).cache, o),
                    ..*old(self)
                }),
                None => *old(self),
            },
    {
        self.cache.update_cache_status(cache_status);
    }

    /// Count one pre-classified access with its transferred bytes.
    pub fn update_cache_access(&mut self, outcome: CacheOutcome, bytes_transferred: u64)
        ensures
            *final(self) == spec_cache_access(*old(self), outcome, bytes_transferred),
    {
        self.cache.update_outcome(outcome);
        if outcome.reads_cache() {
            self.bytes_read = add_sat(self.bytes_read, bytes_transferred);
        } else if outcome.writes_cache() {
            self.bytes_written = add_sat(self.bytes_written, bytes_transferred);
        }
    }

    /// Overwrite the size gauge pair.
    pub fn update_cache_size(&mut self, max_size: u64, used_size: u64)
        ensures
            *final(self) == (CacheZoneStats {
                size: VtsCacheSizeStats { max_size, used_size },
                ..*old(self)
            }),
    {
        self.size.max_size = max_size;
        self.size.used_size = used_size;
    }

    /// A value-equal copy of the zone record.
    pub fn duplicate(&self) -> (r: CacheZoneStats)
        ensures
            r == *self,
    {
        CacheZoneStats {
            name: self.name.clone(),
            cache: self.cache,
            size: self.size,
            bytes_written: self.bytes_written,
            bytes_read: self.bytes_read,
        }
    }
}

/// One status string folded into a zone: the named bucket moves for a
/// recognized outcome; an unknown string changes nothing.
pub open spec fn spec_zone_status(z: CacheZoneStats, cache_status: Seq<char>) -> CacheZoneStats {
    match spec_cache_outcome(cache_status) {
        Some(o) => CacheZoneStats { cache: spec_count_outcome(z.cache, o), ..z },
        None => z,
    }
}

/// A zone with its size gauge pair overwritten.
pub open spec fn spec_zone_sized(z: CacheZoneStats, max_size: u64, used_size: u64) -> CacheZoneStats {
    CacheZoneStats { size: VtsCacheSizeStats { max_size, used_size }, ..z }
}

/// Registry of cache zones, keyed by zone name.
#[derive(Debug)]
pub struct CacheStatsManager {
    /// Zone records keyed by zone name.
    pub cache_zones: StrTable<CacheZoneStats>,
}

impl CacheStatsManager {
    pub open spec fn wf(self) -> bool {
        self.cache_zones.wf()
    }

    pub open spec fn zones(self) -> Map<Seq<char>, CacheZoneStats> {
        self.cache_zones.as_map()
    }

    pub fn new() -> (r: CacheStatsManager)
        ensures
            r.wf(),
            r.zones() == Map::<Seq<char>, CacheZoneStats>::empty(),
            r.cache_zones.key_seq() == Seq::<Seq<char>>::empty(),
    {
        CacheStatsManager { cache_zones: StrTable::new() }
    }

    /// Count one status string for a zone, creating the zone on first use.
    pub fn update_cache_stats(&mut self, zone_name: &str, cache_status: &str)
        requires
            old(self).wf(),
        ensures
            final(self).wf(),
            old(self).zones().contains_key(zone_name@) ==> final(self).zones() == old(
                self,
            ).zones().insert(
                zone_name@,
                spec_zone_status(old(self).zones()[zone_name@], cache_status@),
            ),
            !old(self).zones().contains_key(zone_name@) ==> exists|fresh: CacheZoneStats|
                #[trigger] fresh.is_fresh(zone_name@) && final(self).zones() == old(
                    self,
                ).zones().insert(zone_name@, spec_zone_status(fresh, cache_status@)),
    {
        let fresh = CacheZoneStats::new(zone_name);
        let zone = self.cache_zones.get_or_insert_mut(zone_name, fresh);
        zone.update_cache_status(cache_status);
    }

    /// Count one pre-classified access for a zone.
    pub fn update_cache_access(&mut self, zone_name: &str, outcome: CacheOutcome, bytes: u64)
        requires
            old(self).wf(),
        ensures
            final(self).wf(),
            old(self).zones().contains_key(zone_name@) ==> final(self).zones() == old(
                self,
            ).zones().insert(
                zone_name@,
                spec_cache_access(old(self).zones()[zone_name@], outcome, bytes),
            ),
            !old(self).zones().contains_key(zone_name@) ==> exists|fresh: CacheZoneStats|
                #[trigger] fresh.is_fresh(zone_name@) && final(self).zones() == old(
                    self,
                ).zones().insert(zone_name@, spec_cache_access(fresh, outcome, bytes)),
    {
        let fresh = CacheZoneStats::new(zone_name);
        let zone = self.cache_zones.get_or_insert_mut(zone_name, fresh);
        zone.update_cache_access(outcome, bytes);
    }

    /// Overwrite the size gauges for a zone, creating it on first use.
    pub fn update_cache_size(&mut self, zone_name: &str, max_size: u64, used_size: u64)
        requires
            old(self).wf(),
        ensures
            final(self).wf(),
            old(self).zones().contains_key(zone_name@) ==> final(self).zones() == old(
                self,
            ).zones().insert(
                zone_name@,
                spec_zone_sized(old(self).zones()[zone_name@], max_size, used_size),
            ),
            !old(self).zones().contains_key(zone_name@) ==> exists|fresh: CacheZoneStats|
                #[trigger] fresh.is_fresh(zone_name@) && final(self).zones() == old(
                    self,
                ).zones().insert(zone_name@, spec_zone_sized(fresh, max_size, used_size)),
    {
        let fresh = CacheZoneStats::new(zone_name);
        let zone = self.cache_zones.get_or_insert_mut(zone_name, fresh);
        zone.update_cache_size(max_size, used_size);
    }

    /// A value-equal copy of one zone's statistics, if the zone exists.
    pub fn get_cache_zone(&self, zone_name: &str) -> (r: Option<CacheZoneStats>)
        requires
            self.wf(),
        ensures
            r == if self.zones().contains_key(zone_name@) {
                Some(self.zones()[zone_name@])
            } else {
                None::<CacheZoneStats>
            },
    {
        match self.cache_zones.get(zone_name) {
            Some(z) => Some(z.duplicate()),
            None => None,
        }
    }

    /// A value-equal copy of the whole registry.
    pub fn get_all_cache_zones(&self) -> (r: StrTable<CacheZoneStats>)
        requires
            self.wf(),
        ensures
            r.wf(),
            r.key_seq() == self.cache_zones.key_seq(),
            r.val_seq() == self.cache_zones.val_seq(),
            r.as_map() == self.zones(),
    {
        proof {
            self.cache_zones.lemma_wf();
        }
        let n = self.cache_zones.len();
        let mut out: StrTable<CacheZoneStats> = StrTable::new();
        let mut i: usize = 0;
        while i < n
            invariant
                self.wf(),
                n == self.cache_zones.key_seq().len(),
                n == self.cache_zones.val_seq().len(),
                forall|p: int, q: int|
                    0 <= p < q < n ==> self.cache_zones.key_seq()[p]
                        != self.cache_zones.key_seq()[q],
                i <= n,
                out.wf(),
                out.key_seq() == self.cache_zones.key_seq().take(i as int),
                out.val_seq() == self.cache_zones.val_seq().take(i as int),
            decreases n - i,
        {
            proof {
                out.lemma_contains(self.cache_zones.key_seq()[i as int]);
            }
            let key = self.cache_zones.key_at(i);
            let val = self.cache_zones.val_at(i).duplicate();
            out.insert(key.as_str(), val);
            proof {
                assert(self.cache_zones.key_seq().take(i + 1) =~= self.cache_zones.key_seq().take(
                    i as int,
                ).push(self.cache_zones.key_seq()[i as int]));
                assert(self.cache_zones.val_seq().take(i + 1) =~= self.cache_zones.val_seq().take(
                    i as int,
                ).push(self.cache_zones.val_seq()[i as int]));
            }
            i += 1;
        }
        proof {
            assert(self.cache_zones.key_seq().take(n as int) =~= self.cache_zones.key_seq());
            assert(self.cache_zones.val_seq().take(n as int) =~= self.cache_zones.val_seq());
            StrTable::lemma_same_entries(out, self.cache_zones);
        }
        out
    }

    /// Clear every zone.
    pub fn clear(&mut self)
        ensures
            final(self).wf(),
            final(self).zones() == Map::<Seq<char>, CacheZoneStats>::empty(),
            final(self).cache_zones.key_seq() == Seq::<Seq<char>>::empty(),
    {
        self.cache_zones.clear();
    }
}

impl Default for CacheStatsManager {
    fn default() -> (r: CacheStatsManager)
        ensures
            r.wf(),
            r.zones() == Map::<Seq<char>, CacheZoneStats>::empty(),
    {
        CacheStatsManager::new()
    }
}

} // verus!
