//! Coarse region attribution: a deterministic bucketing of non-local IPv4
//! addresses into five fixed regions by first octet, with per-bucket packet
//! counts and a leading bucket.  The bucketing is a stand-in for a real
//! geolocation database; the contract is stable bucketing, not geography.

use vstd::prelude::*;

use crate::addr::IpAddress;
use crate::addr::is_loopback_ip;
use crate::addr::is_private_ip;
use crate::addr::spec_is_loopback_ip;
use crate::addr::spec_is_private_ip;

verus! {

/// How many region buckets there are.
pub const REGION_COUNT: usize = 5;

/// A region descriptor: a short code, a human-readable name, and
/// representative coordinates in ten-thousandths of a degree.
#[derive(Debug, Clone)]
pub struct GeoLocation {
    pub country: String,
    pub region: String,
    pub latitude: i64,
    pub longitude: i64,
}

/// The bucket of a first octet: five contiguous ranges of equal standing.
pub open spec fn spec_region_of_octet(octet: u8) -> int {
    if octet < 50 {
        0
    } else if octet < 100 {
        1
    } else if octet < 150 {
        2
    } else if octet < 200 {
        3
    } else {
        4
    }
}

/// The short code of each bucket.
pub open spec fn spec_region_code(i: int) -> Seq<char> {
    if i == 0 {
        "US"@
    } else if i == 1 {
        "EU"@
    } else if i == 2 {
        "CN"@
    } else if i == 3 {
        "AU"@
    } else {
        "BR"@
    }
}

/// The human-readable name of each bucket.
pub open spec fn spec_region_name(i: int) -> Seq<char> {
    if i == 0 {
        "North America"@
    } else if i == 1 {
        "Europe"@
    } else if i == 2 {
        "Asia"@
    } else if i == 3 {
        "Oceania"@
    } else {
        "South America"@
    }
}

/// The representative latitude of each bucket, in ten-thousandths of a
/// degree.
pub open spec fn spec_region_latitude(i: int) -> i64 {
    if i == 0 {
        370902
    } else if i == 1 {
        545260
    } else if i == 2 {
        358617
    } else if i == 3 {
        -252744i64
    } else {
        -142350i64
    }
}

/// The representative longitude of each bucket, in ten-thousandths of a
/// degree.
pub open spec fn spec_region_longitude(i: int) -> i64 {
    if i == 0 {
        -957129i64
    } else if i == 1 {
        152551
    } else if i == 2 {
        1041954
    } else if i == 3 {
        1337751
    } else {
        -519253i64
    }
}

/// The bucket an address attributes to: none for loopback, private or IPv6
/// addresses, otherwise the bucket of the first octet.
pub open spec fn spec_lookup_region(ip: IpAddress) -> Option<int> {
    if spec_is_loopback_ip(ip) || spec_is_private_ip(ip) {
        None
    } else {
        match ip {
            IpAddress::V4(a, _b, _c, _d) => Some(spec_region_of_octet(a)),
            IpAddress::V6(_) => None,
        }
    }
}

/// The bucket index an address attributes to, if any.
pub fn lookup_ip_region(ip: IpAddress) -> (r: Option<usize>)
    ensures
        match r {
            Some(i) => spec_lookup_region(ip) == Some(i as int) && i < REGION_COUNT,
            None => spec_lookup_region(ip) is None,
        },
{
    if is_loopback_ip(ip) || is_private_ip(ip) {
        return None;
    }
    match ip {
        IpAddress::V4(a, _b, _c, _d) => {
            if a < 50 {
                Some(0)
            } else if a < 100 {
                Some(1)
            } else if a < 150 {
                Some(2)
            } else if a < 200 {
                Some(3)
            } else {
                Some(4)
            }
        },
        IpAddress::V6(_) => None,
    }
}

/// The descriptor of one bucket.
pub fn region_location(i: usize) -> (loc: GeoLocation)
    requires
        i < REGION_COUNT,
    ensures
        loc.country@ == spec_region_code(i as int),
        loc.region@ == spec_region_name(i as int),
        loc.latitude == spec_region_latitude(i as int),
        loc.longitude == spec_region_longitude(i as int),
{
    if i == 0 {
        GeoLocation {
            country: String::from_str("US"),
            region: String::from_str("North America"),
            latitude: 370902,
            longitude: -957129,
        }
    } else if i == 1 {
        GeoLocation {
            country: String::from_str("EU"),
            region: String::from_str("Europe"),
            latitude: 545260,
            longitude: 152551,
        }
    } else if i == 2 {
        GeoLocation {
            country: String::from_str("CN"),
            region: String::from_str("Asia"),
            latitude: 358617,
            longitude: 1041954,
        }
    } else if i == 3 {
        GeoLocation {
            country: String::from_str("AU"),
            region: String::from_str("Oceania"),
            latitude: -252744,
            longitude: 1337751,
        }
    } else {
        GeoLocation {
            country: String::from_str("BR"),
            region: String::from_str("South America"),
            latitude: -142350,
            longitude: -519253,
        }
    }
}

/// The full descriptor an address attributes to: none for loopback,
/// private or IPv6 addresses, otherwise the fixed descriptor of the first
/// octet's bucket.
pub fn lookup_ip_location(ip: IpAddress) -> (r: Option<GeoLocation>)
    ensures
        match r {
            Some(loc) => {
                &&& spec_lookup_region(ip) is Some
                &&& loc.country@ == spec_region_code(spec_lookup_region(ip).unwrap())
                &&& loc.region@ == spec_region_name(spec_lookup_region(ip).unwrap())
                &&& loc.latitude == spec_region_latitude(spec_lookup_region(ip).unwrap())
                &&& loc.longitude == spec_region_longitude(spec_lookup_region(ip).unwrap())
            },
            None => spec_lookup_region(ip) is None,
        },
{
    match lookup_ip_region(ip) {
        Some(i) => Some(region_location(i)),
        None => None,
    }
}

/// How many buckets of a count vector have been seen at least once.
pub open spec fn spec_nonzero_count(s: Seq<u64>) -> int
    decreases s.len(),
{
    if s.len() == 0 {
        0
    } else {
        spec_nonzero_count(s.drop_last()) + if s.last() > 0 {
            1int
        } else {
            0int
        }
    }
}

/// What a valid leading bucket is: none when every count is zero,
/// otherwise the last bucket holding the maximum count.
pub open spec fn spec_top_ok(s: Seq<u64>, top: Option<usize>) -> bool {
    match top {
        None => forall|j: int| 0 <= j < s.len() ==> s[j] == 0,
        Some(i) => {
            &&& i < s.len()
            &&& s[i as int] > 0
            &&& forall|j: int| 0 <= j < s.len() ==> s[j] <= s[i as int]
            &&& forall|j: int| i < j < s.len() ==> s[j] < s[i as int]
        },
    }
}

/// Per-bucket packet counts and the leading bucket.
pub struct GeoStats {
    counts: Vec<u64>,
    top_country: Option<usize>,
    total_countries: usize,
}

impl GeoStats {
    /// The per-bucket counts.
    pub closed spec fn counts_seq(&self) -> Seq<u64> {
        self.counts@
    }

    /// The leading bucket.
    pub closed spec fn spec_top_country(&self) -> Option<usize> {
        self.top_country
    }

    /// How many buckets have been seen.
    pub closed spec fn spec_total_countries(&self) -> int {
        self.total_countries as int
    }

    /// Well-formedness: one counter per bucket, and the leading bucket and
    /// total consistent with the counts.
    pub closed spec fn wf(&self) -> bool {
        &&& self.counts@.len() == REGION_COUNT
        &&& spec_top_ok(self.counts@, self.top_country)
        &&& self.total_countries == spec_nonzero_count(self.counts@)
    }

    /// Fresh statistics: every bucket at zero, no leading bucket.
    pub fn new() -> (s: GeoStats)
        ensures
            s.wf(),
            s.counts_seq() == Seq::new(REGION_COUNT as nat, |i: int| 0u64),
            s.spec_top_country() is None,
            s.spec_total_countries() == 0,
    {
        let mut counts: Vec<u64> = Vec::new();
        for i in 0..REGION_COUNT
            invariant
                counts@.len() == i,
                forall|j: int| 0 <= j < i ==> counts@[j] == 0u64,
        {
            counts.push(0);
        }
        proof {
            assert(counts@ =~= Seq::new(REGION_COUNT as nat, |i: int| 0u64));
            lemma_nonzero_count_zero(counts@);
        }
        GeoStats { counts, top_country: None, total_countries: 0 }
    }

    /// One bucket's count.
    pub fn count_of_region(&self, i: usize) -> (n: u64)
        requires
            self.wf(),
            i < REGION_COUNT,
        ensures
            n == self.counts_seq()[i as int],
    {
        self.counts[i]
    }

    /// The leading bucket: none until a bucket has been seen, otherwise
    /// the last bucket holding the maximum count.
    pub fn top_country(&self) -> (top: Option<usize>)
        requires
            self.wf(),
        ensures
            top == self.spec_top_country(),
            spec_top_ok(self.counts_seq(), top),
    {
        self.top_country
    }

    /// How many buckets have been seen at least once.
    pub fn total_countries(&self) -> (n: usize)
        requires
            self.wf(),
        ensures
            n == spec_nonzero_count(self.counts_seq()),
    {
        self.total_countries
    }

    /// Recomputes the leading bucket as the bucket with the maximum
    /// nonzero count — the last such bucket wins a tie — and the number of
    /// buckets seen.
    pub fn update_top_country(&mut self)
        requires
            old(self).counts_seq().len() == REGION_COUNT,
        ensures
            final(self).wf(),
            final(self).counts_seq() == old(self).counts_seq(),
    {
        let n = self.counts.len();
        let mut best: Option<usize> = None;
        let mut seen: usize = 0;
        for i in 0..n
            invariant
                n == self.counts@.len(),
                n == REGION_COUNT,
                spec_top_ok(self.counts@.subrange(0, i as int), best),
                match best {
                    Some(b) => b < i,
                    None => true,
                },
                seen == spec_nonzero_count(self.counts@.subrange(0, i as int)),
                seen <= i,
        {
            let ghost prefix = self.counts@.subrange(0, i as int);
            let c = self.counts[i];
            if c > 0 {
                seen = seen + 1;
                let take = match best {
                    Some(b) => c >= self.counts[b],
                    None => true,
                };
                if take {
                    best = Some(i);
                }
            }
            proof {
                assert(self.counts@.subrange(0, i + 1).drop_last() =~= prefix);
            }
        }
        proof {
            assert(self.counts@.subrange(0, n as int) =~= self.counts@);
        }
        self.top_country = best;
        self.total_countries = seen;
    }

    /// Counts one packet for a bucket and recomputes the leading bucket.
    pub fn record_region(&mut self, region: usize)
        requires
            old(self).wf(),
            region < REGION_COUNT,
        ensures
            final(self).wf(),
            final(self).counts_seq() == old(self).counts_seq().update(
                region as int,
                old(self).counts_seq()[region as int].saturating_add(1),
            ),
    {
        let c = self.counts[region];
        self.counts.set(region, c.saturating_add(1));
        self.update_top_country();
    }
}

/// An all-zero count vector has no nonzero bucket.
proof fn lemma_nonzero_count_zero(s: Seq<u64>)
    requires
        forall|j: int| 0 <= j < s.len() ==> s[j] == 0u64,
    ensures
        spec_nonzero_count(s) == 0,
    decreases s.len(),
{
    if s.len() > 0 {
        lemma_nonzero_count_zero(s.drop_last());
    }
}

} // verus!
