//! The configuration of the tool: region, API, cache and local tariff.
//! Reading and writing the file is the caller's part; prices are in
//! ten-thousandths of a yuan per kWh.

use vstd::prelude::*;

verus! {

/// The region used when none is given.
#[derive(Debug, Clone)]
pub struct RegionConfig {
    pub province: String,
    pub city: String,
}

/// Where the tariff API is and how long a request may take.
#[derive(Debug, Clone)]
pub struct ApiConfig {
    pub base_url: String,
    /// Seconds.
    pub timeout: u64,
}

/// How long a fetched schedule stays fresh.
#[derive(Debug, Clone)]
pub struct CacheConfig {
    /// Seconds.
    pub ttl: u64,
}

/// The local tariff prices.
#[derive(Debug, Clone, Copy)]
pub struct DefaultPrice {
    pub peak_price: u32,
    pub flat_price: u32,
    pub valley_price: u32,
}

/// The local tariff hours: each range is `[start, end]`, wrapping around
/// midnight where `start` is not below `end`.
#[derive(Debug, Clone)]
pub struct ScheduleConfig {
    pub peak_hours: Vec<Vec<u8>>,
    pub valley_hours: Vec<Vec<u8>>,
}

/// The local tariff.
#[derive(Debug, Clone)]
pub struct PricingConfig {
    pub default: DefaultPrice,
    pub schedule: ScheduleConfig,
}

/// The whole configuration.
#[derive(Debug, Clone)]
pub struct AppConfig {
    pub region: RegionConfig,
    pub api: ApiConfig,
    pub cache: CacheConfig,
    pub pricing: PricingConfig,
}

/// Whether an hour range can be laid on a day: it has a start and an end,
/// and the end is at most 24.
pub open spec fn range_ok(r: Seq<u8>) -> bool {
    r.len() >= 2 && r[1] <= 24
}

/// Whether every range of a list can be laid on a day.
pub open spec fn ranges_ok(rs: Seq<Seq<u8>>) -> bool {
    forall|i: int| 0 <= i < rs.len() ==> range_ok(#[trigger] rs[i])
}

impl ScheduleConfig {
    /// Whether every peak range can be laid on a day. (Valley ranges that
    /// cannot are left out where the tariff is laid out.)
    pub open spec fn well_formed(&self) -> bool {
        ranges_ok(self.peak_hours.deep_view())
    }

    /// Whether every peak range can be laid on a day.
    pub fn is_well_formed(&self) -> (r: bool)
        ensures
            r == self.well_formed(),
    {
        all_ranges_ok(&self.peak_hours)
    }
}

/// Whether every range of a list can be laid on a day.
fn all_ranges_ok(rs: &Vec<Vec<u8>>) -> (r: bool)
    ensures
        r == ranges_ok(rs.deep_view()),
{
    let mut i: usize = 0;
    while i < rs.len()
        invariant
            i <= rs@.len(),
            forall|j: int| 0 <= j < i ==> range_ok(#[trigger] rs.deep_view()[j]),
        decreases rs@.len() - i,
    {
        let r = &rs[i];
        if r.len() < 2 || r[1] > 24 {
            assert(!range_ok(rs.deep_view()[i as int]));
            return false;
        }
        i = i + 1;
    }
    true
}

/// The hour range `[start, end]`.
fn hour_range(start: u8, end: u8) -> (r: Vec<u8>)
    ensures
        r.deep_view() == seq![start, end],
{
    let mut r: Vec<u8> = Vec::new();
    r.push(start);
    r.push(end);
    assert(r.deep_view() =~= seq![start, end]);
    r
}

/// A list of one range.
fn one_range(a: Vec<u8>) -> (r: Vec<Vec<u8>>)
    ensures
        r.deep_view() == seq![a.deep_view()],
{
    let mut r: Vec<Vec<u8>> = Vec::new();
    r.push(a);
    assert(r.deep_view() =~= seq![a.deep_view()]);
    r
}

/// A list of two ranges.
fn two_ranges(a: Vec<u8>, b: Vec<u8>) -> (r: Vec<Vec<u8>>)
    ensures
        r.deep_view() == seq![a.deep_view(), b.deep_view()],
{
    let ghost ga = a.deep_view();
    let ghost gb = b.deep_view();
    let mut r: Vec<Vec<u8>> = Vec::new();
    r.push(a);
    r.push(b);
    assert(r.deep_view() =~= seq![ga, gb]);
    r
}

impl AppConfig {
    /// The built-in configuration: Wuxi in Jiangsu, the State Grid API with a
    /// ten-second timeout, one hour of caching, ¥0.56 peak and flat and
    /// ¥0.35 valley, peak 8-11 and 17-21, valley 22-6.
    pub fn default_config() -> (r: AppConfig)
        ensures
            r.region.province@ == "jiangsu"@,
            r.region.city@ == "wuxi"@,
            r.api.base_url@ == "https://www.95598.cn"@,
            r.api.timeout == 10,
            r.cache.ttl == 3600,
            r.pricing.default.peak_price == 5600,
            r.pricing.default.flat_price == 5600,
            r.pricing.default.valley_price == 3500,
            r.pricing.schedule.peak_hours.deep_view() == seq![seq![8u8, 11u8], seq![17u8, 21u8]],
            r.pricing.schedule.valley_hours.deep_view() == seq![seq![22u8, 6u8]],
    {
        let r = AppConfig {
            region: RegionConfig { province: "jiangsu".to_owned(), city: "wuxi".to_owned() },
            api: ApiConfig { base_url: "https://www.95598.cn".to_owned(), timeout: 10 },
            cache: CacheConfig { ttl: 3600 },
            pricing: PricingConfig {
                default: DefaultPrice { peak_price: 5600, flat_price: 5600, valley_price: 3500 },
                schedule: ScheduleConfig {
                    peak_hours: two_ranges(hour_range(8, 11), hour_range(17, 21)),
                    valley_hours: one_range(hour_range(22, 6)),
                },
            },
        };
        r
    }
}

}
