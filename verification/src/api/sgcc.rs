//! The State Grid (SGCC) provider's logic: the request address, the reading
//! of the API's answer, and the tariff built from the local configuration
//! when the API cannot be used. The HTTP exchange itself is the caller's.

use vstd::prelude::*;
use vstd::string::*;
use crate::config::{AppConfig, DefaultPrice, PricingConfig, ScheduleConfig, range_ok, ranges_ok};
use crate::date::CalendarDate;
use crate::error::AppError;
use crate::models::price::{DailyPriceSchedule, PricePeriod, PriceTier, Season, season_of_month, span_covers};
use crate::models::price_type::UsageType;
use crate::models::region::Region;
use crate::text::{first_field, first_field_of, parse_u8, parse_u8_text, same_text};

verus! {

/// One item of the API's answer: a tier name, start and end times such as
/// "08:00", and the price in ten-thousandths of a yuan per kWh.
#[derive(Debug, Clone)]
pub struct PriceItem {
    pub time_type: String,
    pub start_time: String,
    pub end_time: String,
    pub price: u32,
}

/// The provider of State Grid tariffs.
#[derive(Debug, Clone)]
pub struct SgccProvider {
    pub config: AppConfig,
    pub usage_type: UsageType,
}

/// The address of the tariff query for a region and a date.
pub open spec fn api_url(base: Seq<char>, province: Seq<char>, city: Seq<char>, date: CalendarDate) -> Seq<char> {
    base + "/api/price/query?province="@ + province + "&city="@ + city + "&date="@ + date.text()
}

/// The tier an API tier name stands for: "peak" or "高" is peak, "valley" or
/// "低" is valley, anything else is flat.
pub open spec fn tier_of_name(n: Seq<char>) -> PriceTier {
    if n == "peak"@ || n == "高"@ {
        PriceTier::Peak
    } else if n == "valley"@ || n == "低"@ {
        PriceTier::Valley
    } else {
        PriceTier::Flat
    }
}

/// The hour of a time text: the number before its first ':'.
pub open spec fn hour_of(t: Seq<char>) -> Option<u8> {
    parse_u8_text(first_field(t, ':'))
}

/// The message for a time text whose hour cannot be read.
pub open spec fn hour_error(t: Seq<char>) -> Seq<char> {
    "解析时间失败: "@ + t
}

/// The period an item stands for, or the message of its first bad time.
pub open spec fn item_outcome(it: PriceItem, season: Season) -> Result<PricePeriod, Seq<char>> {
    match hour_of(it.start_time@) {
        None => Err(hour_error(it.start_time@)),
        Some(s) => match hour_of(it.end_time@) {
            None => Err(hour_error(it.end_time@)),
            Some(e) => Ok(
                PricePeriod {
                    tier: tier_of_name(it.time_type@),
                    start_hour: s,
                    end_hour: e,
                    price: it.price,
                    season,
                },
            ),
        },
    }
}

/// The periods that items stand for, in order, or the message of the first
/// item that cannot be read.
pub open spec fn items_outcome(items: Seq<PriceItem>, season: Season) -> Result<Seq<PricePeriod>, Seq<char>>
    decreases items.len(),
{
    if items.len() == 0 {
        Ok(seq![])
    } else {
        match items_outcome(items.drop_last(), season) {
            Err(m) => Err(m),
            Ok(ps) => match item_outcome(items.last(), season) {
                Err(m) => Err(m),
                Ok(p) => Ok(ps.push(p)),
            },
        }
    }
}

/// Whether a local tariff range covers an hour.
pub open spec fn range_covers(r: Seq<u8>, hour: int) -> bool {
    span_covers(r[0] as int, r[1] as int, hour)
}

/// Whether some range of a list covers an hour.
pub open spec fn ranges_cover(rs: Seq<Seq<u8>>, hour: int) -> bool {
    exists|i: int| 0 <= i < rs.len() && range_covers(#[trigger] rs[i], hour)
}

/// Whether some range of a list that can be laid on a day covers an hour.
pub open spec fn usable_ranges_cover(rs: Seq<Seq<u8>>, hour: int) -> bool {
    exists|i: int| 0 <= i < rs.len() && range_ok(#[trigger] rs[i]) && range_covers(rs[i], hour)
}

/// The tier the local tariff plans for an hour: peak where a peak range
/// covers it, otherwise valley where a valley range covers it (valley ranges
/// without a start and an end up to 24 are left out), otherwise flat.
#[verifier::opaque]
pub open spec fn planned_tier(s: ScheduleConfig, hour: int) -> PriceTier {
    if ranges_cover(s.peak_hours.deep_view(), hour) {
        PriceTier::Peak
    } else if usable_ranges_cover(s.valley_hours.deep_view(), hour) {
        PriceTier::Valley
    } else {
        PriceTier::Flat
    }
}

/// The local price of a tier.
pub open spec fn tier_price(p: DefaultPrice, t: PriceTier) -> u32 {
    match t {
        PriceTier::Peak => p.peak_price,
        PriceTier::Flat => p.flat_price,
        PriceTier::Valley => p.valley_price,
    }
}

/// Whether period `p` has the tier and price that the local tariff plans for
/// `hour`.
pub open spec fn planned_at(pricing: PricingConfig, p: PricePeriod, hour: int) -> bool {
    &&& p.tier == planned_tier(pricing.schedule, hour)
    &&& p.price == tier_price(pricing.default, p.tier)
}

/// Whether `ps` is a run of consecutive periods from hour 0 to hour 24,
/// each at least one hour long and none past hour 24.
pub open spec fn is_day_tiling(ps: Seq<PricePeriod>) -> bool {
    &&& ps.len() >= 1
    &&& ps[0].start_hour == 0
    &&& ps[ps.len() - 1].end_hour == 24
    &&& forall|i: int| 0 <= i < ps.len() ==> (#[trigger] ps[i]).start_hour < ps[i].end_hour
        && ps[i].end_hour <= 24
    &&& forall|i: int, j: int| #![trigger ps[i], ps[j]] 0 <= i && j == i + 1 && j < ps.len()
        ==> ps[i].end_hour == ps[j].start_hour
}

/// Whether every period of `ps` holds only hours of its planned tier and
/// price.
pub open spec fn follows_plan(ps: Seq<PricePeriod>, pricing: PricingConfig) -> bool {
    forall|i: int, h: int| 0 <= i < ps.len() && (#[trigger] ps[i]).start_hour <= h < ps[i].end_hour
        ==> #[trigger] planned_at(pricing, ps[i], h)
}

/// Whether each period of `ps` differs from the next in tier or price.
pub open spec fn runs_are_maximal(ps: Seq<PricePeriod>) -> bool {
    forall|i: int, j: int| #![trigger ps[i], ps[j]] 0 <= i && j == i + 1 && j < ps.len()
        ==> (ps[i].tier != ps[j].tier || ps[i].price != ps[j].price)
}

/// Whether all periods of `ps` are of one season.
pub open spec fn all_of_season(ps: Seq<PricePeriod>, season: Season) -> bool {
    forall|i: int| 0 <= i < ps.len() ==> (#[trigger] ps[i]).season == season
}

/// Whether `ps` lays the local tariff on the day: consecutive periods from
/// hour 0 to hour 24, each holding hours of one planned tier and price, each
/// differing from the next, all of one season. These are the maximal runs of
/// equal hours, so they are fixed by the tariff.
pub open spec fn tiles_day(ps: Seq<PricePeriod>, pricing: PricingConfig, season: Season) -> bool {
    &&& is_day_tiling(ps)
    &&& follows_plan(ps, pricing)
    &&& runs_are_maximal(ps)
    &&& all_of_season(ps, season)
}

/// The message of an API error answer.
pub open spec fn api_error(msg: Seq<char>) -> Seq<char> {
    "API 错误: "@ + msg
}

/// The message of an answer without data.
pub open spec fn empty_answer_error() -> Seq<char> {
    "API 返回数据为空"@
}

/// Whether `r` is the error `AppError::Api` with message `m`.
pub open spec fn is_api_error(r: Result<Vec<PricePeriod>, AppError>, m: Seq<char>) -> bool {
    r matches Err(AppError::Api(x)) && x@ == m
}

/// Whether `r` is what the items give: their periods, or the parse error of
/// the first bad item.
pub open spec fn matches_items(r: Result<Vec<PricePeriod>, AppError>, items: Seq<PriceItem>, season: Season) -> bool {
    match items_outcome(items, season) {
        Ok(ps) => r matches Ok(v) && v@ == ps,
        Err(m) => r matches Err(AppError::Parse(x)) && x@ == m,
    }
}

/// Whether a range covers an hour.
fn range_covers_hour(r: &Vec<u8>, hour: u8) -> (b: bool)
    requires
        range_ok(r.deep_view()),
    ensures
        b == range_covers(r.deep_view(), hour as int),
{
    let start = r[0];
    let end = r[1];
    if start < end {
        hour >= start && hour < end
    } else {
        hour >= start || hour < end
    }
}

/// Whether some range of a list covers an hour.
fn any_range_covers(rs: &Vec<Vec<u8>>, hour: u8) -> (b: bool)
    requires
        ranges_ok(rs.deep_view()),
    ensures
        b == ranges_cover(rs.deep_view(), hour as int),
{
    let mut i: usize = 0;
    while i < rs.len()
        invariant
            i <= rs@.len(),
            ranges_ok(rs.deep_view()),
            forall|j: int| 0 <= j < i ==> !range_covers(#[trigger] rs.deep_view()[j], hour as int),
        decreases rs@.len() - i,
    {
        assert(range_ok(rs.deep_view()[i as int]));
        assert(rs[i as int].deep_view() == rs.deep_view()[i as int]);
        if range_covers_hour(&rs[i], hour) {
            return true;
        }
        i = i + 1;
    }
    false
}

/// Whether some usable range of a list covers an hour; ranges without a
/// start and an end up to 24 are passed over.
fn any_usable_range_covers(rs: &Vec<Vec<u8>>, hour: u8) -> (b: bool)
    ensures
        b == usable_ranges_cover(rs.deep_view(), hour as int),
{
    let mut i: usize = 0;
    while i < rs.len()
        invariant
            i <= rs@.len(),
            forall|j: int| 0 <= j < i ==> !(range_ok(#[trigger] rs.deep_view()[j]) && range_covers(rs.deep_view()[j], hour as int)),
        decreases rs@.len() - i,
    {
        let r = &rs[i];
        assert(r.deep_view() == rs.deep_view()[i as int]);
        if r.len() >= 2 && r[1] <= 24 {
            if range_covers_hour(r, hour) {
                return true;
            }
        }
        i = i + 1;
    }
    false
}

/// Lemma: in a tiling, a period ends no later than any later one starts.
proof fn lemma_tiles_ordered(ps: Seq<PricePeriod>, j: int, i: int)
    requires
        is_day_tiling(ps),
        0 <= j < i < ps.len(),
    ensures
        ps[j].end_hour <= ps[i].start_hour,
    decreases i - j,
{
    if j + 1 < i {
        lemma_tiles_ordered(ps, j + 1, i);
        assert(ps[j].end_hour == ps[j + 1].start_hour);
        assert(ps[j + 1].start_hour < ps[j + 1].end_hour);
    } else {
        assert(ps[j].end_hour == ps[j + 1].start_hour);
    }
}

/// Lemma: in a tiling, from a period that starts at or before `hour`, some
/// period at or after it holds `hour`.
proof fn lemma_tiles_cover(ps: Seq<PricePeriod>, k: int, hour: int) -> (i: int)
    requires
        is_day_tiling(ps),
        0 <= k < ps.len(),
        ps[k].start_hour <= hour < 24,
    ensures
        k <= i < ps.len(),
        ps[i].start_hour <= hour < ps[i].end_hour,
    decreases ps.len() - k,
{
    assert(ps[k].start_hour < ps[k].end_hour);
    if hour < ps[k].end_hour {
        k
    } else {
        if k == ps.len() - 1 {
            assert(false);
        }
        assert(ps[k].end_hour == ps[k + 1].start_hour);
        lemma_tiles_cover(ps, k + 1, hour)
    }
}

/// Each hour of the day falls in the period of a tiling that carries the
/// tier planned for that hour and that tier's price: the first period that
/// covers a planned hour is the one the local tariff plans.
pub proof fn law_fallback_lookup(ps: Seq<PricePeriod>, pricing: PricingConfig, season: Season, hour: int)
    requires
        tiles_day(ps, pricing, season),
        0 <= hour < 24,
    ensures
        crate::models::price::period_at(ps, hour) matches Some(p) && p.tier == planned_tier(
            pricing.schedule,
            hour,
        ) && p.price == tier_price(pricing.default, planned_tier(pricing.schedule, hour)),
{
    let i = lemma_tiles_cover(ps, 0, hour);
    assert(planned_at(pricing, ps[i], hour));
    assert forall|j: int| 0 <= j < i implies !(#[trigger] ps[j]).covers(hour) by {
        lemma_tiles_ordered(ps, j, i);
        assert(ps[j].start_hour < ps[j].end_hour);
    }
    assert(crate::models::price::is_first_covering(ps, hour, i));
    let k = choose|k: int| crate::models::price::is_first_covering(ps, hour, k);
    crate::models::price::lemma_first_covering_unique(ps, hour, i, k);
}

/// Whether each period of `ps` costs the configured price of its tier: a
/// peak period the peak price, a flat one the flat price, a valley one the
/// valley price.
pub open spec fn priced_by_tier(ps: Seq<PricePeriod>, p: DefaultPrice) -> bool {
    forall|i: int| 0 <= i < ps.len() ==> {
        &&& (#[trigger] ps[i]).tier is Peak ==> ps[i].price == p.peak_price
        &&& ps[i].tier is Flat ==> ps[i].price == p.flat_price
        &&& ps[i].tier is Valley ==> ps[i].price == p.valley_price
    }
}

/// A schedule laid from the local tariff prices every period at its tier's
/// configured price: peak periods at the peak price, flat periods at the
/// flat price, valley periods at the valley price.
pub proof fn law_fallback_prices(ps: Seq<PricePeriod>, pricing: PricingConfig, season: Season)
    requires
        tiles_day(ps, pricing, season),
    ensures
        forall|i: int| 0 <= i < ps.len() ==> {
            &&& (#[trigger] ps[i]).tier is Peak ==> ps[i].price == pricing.default.peak_price
            &&& ps[i].tier is Flat ==> ps[i].price == pricing.default.flat_price
            &&& ps[i].tier is Valley ==> ps[i].price == pricing.default.valley_price
        },
{
    assert forall|i: int| 0 <= i < ps.len() implies {
        &&& (#[trigger] ps[i]).tier is Peak ==> ps[i].price == pricing.default.peak_price
        &&& ps[i].tier is Flat ==> ps[i].price == pricing.default.flat_price
        &&& ps[i].tier is Valley ==> ps[i].price == pricing.default.valley_price
    } by {
        assert(ps[i].start_hour < ps[i].end_hour);
        assert(planned_at(pricing, ps[i], ps[i].start_hour as int));
    }
}

/// Lemma: two tilings of one tariff whose periods `i` start together agree
/// on period `i`, and it is the last of both or of neither.
proof fn lemma_tilings_agree_at(
    ps1: Seq<PricePeriod>,
    ps2: Seq<PricePeriod>,
    pricing: PricingConfig,
    season: Season,
    i: int,
)
    requires
        tiles_day(ps1, pricing, season),
        tiles_day(ps2, pricing, season),
        0 <= i < ps1.len(),
        0 <= i < ps2.len(),
        ps1[i].start_hour == ps2[i].start_hour,
    ensures
        ps1[i] == ps2[i],
        (i == ps1.len() - 1) <==> (i == ps2.len() - 1),
{
    let a = ps1[i];
    let b = ps2[i];
    let s = a.start_hour as int;
    assert(a.start_hour < a.end_hour);
    assert(b.start_hour < b.end_hour);
    assert(planned_at(pricing, a, s));
    assert(planned_at(pricing, b, s));
    if a.end_hour < b.end_hour {
        let e = a.end_hour as int;
        assert(planned_at(pricing, b, e));
        if i == ps1.len() - 1 {
            assert(false);
        }
        let n = ps1[i + 1];
        assert(a.end_hour == n.start_hour);
        assert(planned_at(pricing, n, e));
        assert(a.tier != n.tier || a.price != n.price);
        assert(false);
    }
    if b.end_hour < a.end_hour {
        let e = b.end_hour as int;
        assert(planned_at(pricing, a, e));
        if i == ps2.len() - 1 {
            assert(false);
        }
        let n = ps2[i + 1];
        assert(b.end_hour == n.start_hour);
        assert(planned_at(pricing, n, e));
        assert(b.tier != n.tier || b.price != n.price);
        assert(false);
    }
    assert(a.season == season && b.season == season);
    if i < ps1.len() - 1 {
        let n = ps1[i + 1];
        assert(a.end_hour == n.start_hour);
        assert(n.start_hour < n.end_hour);
    }
    if i < ps2.len() - 1 {
        let n = ps2[i + 1];
        assert(b.end_hour == n.start_hour);
        assert(n.start_hour < n.end_hour);
    }
}

/// Lemma: two tilings of one tariff whose periods `i` start together agree
/// from period `i` on.
proof fn lemma_tilings_agree_from(
    ps1: Seq<PricePeriod>,
    ps2: Seq<PricePeriod>,
    pricing: PricingConfig,
    season: Season,
    i: int,
)
    requires
        tiles_day(ps1, pricing, season),
        tiles_day(ps2, pricing, season),
        0 <= i < ps1.len(),
        0 <= i < ps2.len(),
        ps1[i].start_hour == ps2[i].start_hour,
    ensures
        ps1.len() == ps2.len(),
        forall|j: int| i <= j < ps1.len() ==> ps1[j] == ps2[j],
    decreases ps1.len() - i,
{
    lemma_tilings_agree_at(ps1, ps2, pricing, season, i);
    if i < ps1.len() - 1 {
        assert(ps1[i].end_hour == ps1[i + 1].start_hour);
        assert(ps2[i].end_hour == ps2[i + 1].start_hour);
        lemma_tilings_agree_from(ps1, ps2, pricing, season, i + 1);
    }
}

/// The local tariff fixes its layout on the day: two lists of periods that
/// both lay it out are the same list. So the fallback schedule is determined
/// by the configuration and the season alone.
pub proof fn law_tiling_is_unique(ps1: Seq<PricePeriod>, ps2: Seq<PricePeriod>, pricing: PricingConfig, season: Season)
    requires
        tiles_day(ps1, pricing, season),
        tiles_day(ps2, pricing, season),
    ensures
        ps1 == ps2,
{
    lemma_tilings_agree_from(ps1, ps2, pricing, season, 0);
    assert(ps1 =~= ps2);
}

impl SgccProvider {
    /// The provider for a configuration and a usage type.
    pub fn new(config: AppConfig, usage_type: UsageType) -> (r: SgccProvider)
        ensures
            r.config == config,
            r.usage_type == usage_type,
    {
        SgccProvider { config, usage_type }
    }

    /// The provider's name.
    pub fn name(&self) -> (r: &'static str)
        ensures
            r@ == "国家电网 (SGCC)"@,
    {
        "国家电网 (SGCC)"
    }

    /// Whether the provider knows a region: only Jiangsu's.
    pub fn supports_region(&self, region: &Region) -> (r: bool)
        ensures
            r == (region.province@ == "jiangsu"@),
    {
        same_text(region.province.as_str(), "jiangsu")
    }

    /// The address of the tariff query for a region and a date.
    pub fn build_api_url(&self, region: &Region, date: &CalendarDate) -> (r: String)
        ensures
            r@ == api_url(self.config.api.base_url@, region.province@, region.city@, *date),
    {
        let mut out = self.config.api.base_url.clone();
        out.append("/api/price/query?province=");
        out.append(region.province.as_str());
        out.append("&city=");
        out.append(region.city.as_str());
        out.append("&date=");
        let d = date.to_text();
        out.append(d.as_str());
        assert(out@ =~= api_url(self.config.api.base_url@, region.province@, region.city@, *date));
        out
    }

    /// The hour of a time text such as "08:00": the number before its first
    /// ':', read as `u8::from_str` reads it.
    pub fn parse_hour(time_str: &str) -> (r: Result<u8, AppError>)
        ensures
            hour_of(time_str@) matches Some(h) ==> r matches Ok(x) && x == h,
            hour_of(time_str@) is None ==> (r matches Err(AppError::Parse(m)) && m@ == hour_error(time_str@)),
    {
        let head = first_field_of(time_str, ':');
        match parse_u8(head) {
            Some(h) => Ok(h),
            None => {
                let mut m = "解析时间失败: ".to_owned();
                m.append(time_str);
                Err(AppError::Parse(m))
            },
        }
    }

    /// The tier an API tier name stands for.
    pub fn tier_of(time_type: &str) -> (r: PriceTier)
        ensures
            r == tier_of_name(time_type@),
    {
        if same_text(time_type, "peak") || same_text(time_type, "高") {
            PriceTier::Peak
        } else if same_text(time_type, "valley") || same_text(time_type, "低") {
            PriceTier::Valley
        } else {
            PriceTier::Flat
        }
    }

    /// The period one item stands for.
    fn item_period(item: &PriceItem, season: Season) -> (r: Result<PricePeriod, AppError>)
        ensures
            match item_outcome(*item, season) {
                Ok(p) => r == Ok::<PricePeriod, AppError>(p),
                Err(m) => r matches Err(AppError::Parse(x)) && x@ == m,
            },
    {
        let tier = SgccProvider::tier_of(item.time_type.as_str());
        let start_hour = match SgccProvider::parse_hour(item.start_time.as_str()) {
            Ok(h) => h,
            Err(e) => {
                return Err(e);
            },
        };
        let end_hour = match SgccProvider::parse_hour(item.end_time.as_str()) {
            Ok(h) => h,
            Err(e) => {
                return Err(e);
            },
        };
        Ok(PricePeriod { tier, start_hour, end_hour, price: item.price, season })
    }

    /// The periods of the API's items, in order, with the season of the date;
    /// the parse error of the first item whose time cannot be read.
    pub fn periods_from_items(items: &Vec<PriceItem>, date: &CalendarDate) -> (r: Result<Vec<PricePeriod>, AppError>)
        ensures
            matches_items(r, items@, season_of_month(date.spec_month())),
    {
        let season = Season::from_month(date.month());
        let mut periods: Vec<PricePeriod> = Vec::new();
        let mut i: usize = 0;
        while i < items.len()
            invariant
                i <= items@.len(),
                season == season_of_month(date.spec_month()),
                items_outcome(items@.subrange(0, i as int), season) == Ok::<Seq<PricePeriod>, Seq<char>>(periods@),
            decreases items@.len() - i,
        {
            let ghost prefix = items@.subrange(0, i + 1);
            assert(prefix.drop_last() =~= items@.subrange(0, i as int));
            match SgccProvider::item_period(&items[i], season) {
                Ok(p) => {
                    periods.push(p);
                },
                Err(e) => {
                    proof {
                        lemma_outcome_err_extends(items@, season, i as int + 1);
                    }
                    return Err(e);
                },
            }
            i = i + 1;
        }
        assert(items@.subrange(0, items@.len() as int) =~= items@);
        Ok(periods)
    }

    /// The periods of an API answer: an error naming the message where the
    /// code is not 200, an error where there is no data, otherwise the
    /// periods of the items.
    pub fn interpret_response(code: i32, msg: &str, data: Option<Vec<PriceItem>>, date: &CalendarDate) -> (r: Result<Vec<PricePeriod>, AppError>)
        ensures
            code != 200 ==> is_api_error(r, api_error(msg@)),
            code == 200 && data is None ==> is_api_error(r, empty_answer_error()),
            code == 200 ==> (data matches Some(items) ==> matches_items(r, items@, season_of_month(date.spec_month()))),
    {
        if code != 200 {
            let mut m = "API 错误: ".to_owned();
            m.append(msg);
            return Err(AppError::Api(m));
        }
        match data {
            None => Err(AppError::Api("API 返回数据为空".to_owned())),
            Some(items) => SgccProvider::periods_from_items(&items, date),
        }
    }

    /// The tier the local tariff plans for an hour.
    fn planned_tier_at(&self, hour: u8) -> (r: PriceTier)
        requires
            self.config.pricing.schedule.well_formed(),
        ensures
            r == planned_tier(self.config.pricing.schedule, hour as int),
    {
        let s = &self.config.pricing.schedule;
        reveal(planned_tier);
        if any_range_covers(&s.peak_hours, hour) {
            PriceTier::Peak
        } else if any_usable_range_covers(&s.valley_hours, hour) {
            PriceTier::Valley
        } else {
            PriceTier::Flat
        }
    }

    /// The local price of a tier.
    fn local_price(&self, tier: PriceTier) -> (r: u32)
        ensures
            r == tier_price(self.config.pricing.default, tier),
            tier is Peak ==> r == self.config.pricing.default.peak_price,
            tier is Flat ==> r == self.config.pricing.default.flat_price,
            tier is Valley ==> r == self.config.pricing.default.valley_price,
    {
        match tier {
            PriceTier::Peak => self.config.pricing.default.peak_price,
            PriceTier::Flat => self.config.pricing.default.flat_price,
            PriceTier::Valley => self.config.pricing.default.valley_price,
        }
    }

    /// The schedule laid out from the local tariff: every hour takes the
    /// planned tier and its price, and runs of equal hours become periods.
    pub fn build_fallback_schedule(&self, region: &Region, date: &CalendarDate) -> (r: DailyPriceSchedule)
        requires
            self.config.pricing.schedule.well_formed(),
        ensures
            r.date == *date,
            r.region == *region,
            tiles_day(r.periods@, self.config.pricing, season_of_month(date.spec_month())),
            priced_by_tier(r.periods@, self.config.pricing.default),
    {
        let season = Season::from_month(date.month());
        let ghost pricing = self.config.pricing;
        let mut periods: Vec<PricePeriod> = Vec::new();
        let mut cur_tier = self.planned_tier_at(0);
        let mut cur_price = self.local_price(cur_tier);
        let mut start: u8 = 0;
        let mut hour: u8 = 1;
        while hour < 24
            invariant
                pricing == self.config.pricing,
                self.config.pricing.schedule.well_formed(),
                season == season_of_month(date.spec_month()),
                1 <= hour <= 24,
                start < hour,
                cur_price == tier_price(pricing.default, cur_tier),
                forall|h: int| start <= h < hour ==> planned_tier(pricing.schedule, h) == cur_tier,
                periods@.len() == 0 ==> start == 0,
                periods@.len() > 0 ==> {
                    &&& periods@[0].start_hour == 0
                    &&& periods@[periods@.len() - 1].end_hour == start
                    &&& (periods@[periods@.len() - 1].tier != cur_tier
                        || periods@[periods@.len() - 1].price != cur_price)
                },
                forall|i: int| 0 <= i < periods@.len() ==> (#[trigger] periods@[i]).start_hour
                    < periods@[i].end_hour && periods@[i].end_hour <= 24 && periods@[i].season == season,
                forall|i: int, j: int| #![trigger periods@[i], periods@[j]] 0 <= i && j == i + 1
                    && j < periods@.len() ==> periods@[i].end_hour == periods@[j].start_hour,
                forall|i: int, h: int| 0 <= i < periods@.len() && (#[trigger] periods@[i]).start_hour
                    <= h < periods@[i].end_hour ==> #[trigger] planned_at(pricing, periods@[i], h),
                forall|i: int, j: int| #![trigger periods@[i], periods@[j]] 0 <= i && j == i + 1
                    && j < periods@.len() ==> (periods@[i].tier != periods@[j].tier
                    || periods@[i].price != periods@[j].price),
            decreases 24 - hour,
        {
            let tier = self.planned_tier_at(hour);
            let price = self.local_price(tier);
            if tier != cur_tier || price != cur_price {
                let p = PricePeriod { tier: cur_tier, start_hour: start, end_hour: hour, price: cur_price, season };
                let ghost old_periods = periods@;
                periods.push(p);
                proof {
                    assert(periods@[periods@.len() - 1] == p);
                    assert forall|i: int, h: int| 0 <= i < periods@.len() && (#[trigger] periods@[i]).start_hour
                        <= h < periods@[i].end_hour implies #[trigger] planned_at(pricing, periods@[i], h) by {
                        if i < old_periods.len() {
                            assert(periods@[i] == old_periods[i]);
                        }
                    }
                }
                cur_tier = tier;
                cur_price = price;
                start = hour;
            }
            hour = hour + 1;
        }
        let last = PricePeriod { tier: cur_tier, start_hour: start, end_hour: 24, price: cur_price, season };
        let ghost old_periods = periods@;
        periods.push(last);
        proof {
            assert forall|i: int, h: int| 0 <= i < periods@.len() && (#[trigger] periods@[i]).start_hour
                <= h < periods@[i].end_hour implies #[trigger] planned_at(pricing, periods@[i], h) by {
                if i < old_periods.len() {
                    assert(periods@[i] == old_periods[i]);
                }
            }
        }
        proof {
            law_fallback_prices(periods@, pricing, season);
        }
        DailyPriceSchedule { date: *date, region: region.clone(), periods }
    }

    /// The schedule for a date from what the API exchange gave: the API's
    /// periods where it succeeded, the local tariff where it failed.
    pub fn schedule_from_fetch(&self, fetched: Result<Vec<PricePeriod>, AppError>, region: &Region, date: &CalendarDate) -> (r: Result<DailyPriceSchedule, AppError>)
        requires
            fetched is Err ==> self.config.pricing.schedule.well_formed(),
        ensures
            r matches Ok(s) && s.date == *date && s.region == *region,
            fetched matches Ok(ps) ==> (r matches Ok(s) && s.periods@ == ps@),
            fetched is Err ==> (r matches Ok(s) && tiles_day(s.periods@, self.config.pricing, season_of_month(date.spec_month()))),
    {
        match fetched {
            Ok(periods) => Ok(DailyPriceSchedule { date: *date, region: region.clone(), periods }),
            Err(_) => Ok(self.build_fallback_schedule(region, date)),
        }
    }
}

/// Lemma: once a prefix of the items fails, every longer prefix fails with
/// the same message.
proof fn lemma_outcome_err_extends(items: Seq<PriceItem>, season: Season, k: int)
    requires
        0 <= k <= items.len(),
        items_outcome(items.subrange(0, k), season) is Err,
    ensures
        items_outcome(items, season) == items_outcome(items.subrange(0, k), season),
    decreases items.len() - k,
{
    if k < items.len() {
        let next = items.subrange(0, k + 1);
        assert(next.drop_last() =~= items.subrange(0, k));
        lemma_outcome_err_extends(items, season, k + 1);
    } else {
        assert(items.subrange(0, k) =~= items);
    }
}

}
