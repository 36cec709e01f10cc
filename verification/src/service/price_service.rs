//! The price service: schedules through the cache, and advice on when to
//! use electricity.

use vstd::prelude::*;
use vstd::string::*;
use crate::api::traits::PriceProvider;
use crate::config::AppConfig;
use crate::date::{CalendarDate, TimeOfDay, is_local_date, is_local_time, local_clock_reading};
use crate::error::AppError;
use crate::models::price::{
    DailyPriceSchedule, PricePeriod, PriceTier, cheapest_of, dearest_of, period_at, same_schedule, tier_label,
};
use crate::models::region::Region;
use crate::service::cache::PriceCache;
use crate::text::{padded, price4_text, push_padded, push_price4};

verus! {

/// The advice for the tier in force.
pub open spec fn tip_line(t: PriceTier) -> Seq<char> {
    match t {
        PriceTier::Valley => "当前是低谷时段，适合用电"@,
        PriceTier::Flat => "当前是平段时段，用电成本适中"@,
        PriceTier::Peak => "当前是高峰时段，建议减少用电"@,
    }
}

/// A period's tier and hours, such as "低谷 00:00-08:00".
pub open spec fn span_text(p: PricePeriod) -> Seq<char> {
    tier_label(p.tier) + " "@ + padded(p.start_hour as nat, 2) + ":00-"@ + padded(p.end_hour as nat, 2)
        + ":00"@
}

/// The line naming the cheapest period.
pub open spec fn lowest_line(c: PricePeriod) -> Seq<char> {
    "今日最低电价: "@ + span_text(c) + " ¥"@ + price4_text(c.price as nat) + "/kWh"@
}

/// The line naming the dearest period.
pub open spec fn highest_line(e: PricePeriod) -> Seq<char> {
    "今日最高电价: "@ + span_text(e) + " ¥"@ + price4_text(e.price as nat) + "/kWh"@
}

/// The line naming what waiting for the cheapest period saves per kWh.
pub open spec fn saving_line(cur: PricePeriod, c: PricePeriod) -> Seq<char> {
    "如果等到 "@ + span_text(c) + " 用电，每 kWh 可省 ¥"@ + price4_text((cur.price - c.price) as nat)
}

/// The lines of advice for a schedule at an hour: the advice for the period
/// in force, the cheapest period, the dearest period, and, in a peak
/// period, what waiting for the cheapest saves. A line whose period does not
/// exist is left out.
pub open spec fn advice_lines(ps: Seq<PricePeriod>, hour: int) -> Seq<Seq<char>> {
    let cur = period_at(ps, hour);
    let cheap = cheapest_of(ps);
    let dear = dearest_of(ps);
    let l1 = match cur {
        Some(p) => seq![tip_line(p.tier)],
        None => seq![],
    };
    let l2 = match cheap {
        Some(c) => seq![lowest_line(c)],
        None => seq![],
    };
    let l3 = match dear {
        Some(e) => seq![highest_line(e)],
        None => seq![],
    };
    let l4 = match cur {
        Some(p) => match cheap {
            Some(c) => if p.tier == PriceTier::Peak {
                seq![saving_line(p, c)]
            } else {
                seq![]
            },
            None => seq![],
        },
        None => seq![],
    };
    l1 + l2 + l3 + l4
}

/// Lines joined by line breaks.
pub open spec fn join_lines(ls: Seq<Seq<char>>) -> Seq<char>
    decreases ls.len(),
{
    if ls.len() == 0 {
        seq![]
    } else if ls.len() == 1 {
        ls[0]
    } else {
        join_lines(ls.drop_last()) + "\n"@ + ls.last()
    }
}

/// Appends a period's tier and hours.
fn push_span(out: &mut String, p: &PricePeriod)
    ensures
        final(out)@ == old(out)@ + span_text(*p),
{
    out.append(p.tier.label());
    out.append(" ");
    push_padded(out, p.start_hour as u64, 2);
    out.append(":00-");
    push_padded(out, p.end_hour as u64, 2);
    out.append(":00");
    assert(out@ =~= old(out)@ + span_text(*p));
}

/// Lines joined by line breaks.
pub fn join_with_breaks(lines: &Vec<String>) -> (r: String)
    ensures
        r@ == join_lines(lines.deep_view()),
{
    let mut out = String::new();
    let mut i: usize = 0;
    while i < lines.len()
        invariant
            i <= lines@.len(),
            out@ == join_lines(lines.deep_view().subrange(0, i as int)),
        decreases lines@.len() - i,
    {
        let ghost prefix = lines.deep_view().subrange(0, i + 1);
        assert(prefix.drop_last() =~= lines.deep_view().subrange(0, i as int));
        if i > 0 {
            out.append("\n");
        }
        out.append(lines[i].as_str());
        proof {
            if i == 0 {
                assert(out@ =~= prefix[0]);
            } else {
                assert(out@ =~= join_lines(prefix));
            }
        }
        i = i + 1;
    }
    assert(lines.deep_view().subrange(0, lines@.len() as int) =~= lines.deep_view());
    out
}

/// The advice for a schedule at an hour, one line each.
pub fn recommendation_text(schedule: &DailyPriceSchedule, hour: u8) -> (r: String)
    ensures
        r@ == join_lines(advice_lines(schedule.periods@, hour as int)),
{
    let current = schedule.price_at_hour(hour);
    let cheapest = schedule.cheapest_period();
    let most_expensive = schedule.most_expensive_period();
    let mut lines: Vec<String> = Vec::new();
    let ghost ps = schedule.periods@;
    let ghost want = advice_lines(ps, hour as int);
    match current {
        Some(period) => {
            let tip = match period.tier {
                PriceTier::Valley => "当前是低谷时段，适合用电",
                PriceTier::Flat => "当前是平段时段，用电成本适中",
                PriceTier::Peak => "当前是高峰时段，建议减少用电",
            };
            lines.push(tip.to_owned());
        },
        None => {},
    }
    match cheapest {
        Some(cheap) => {
            let mut line = "今日最低电价: ".to_owned();
            push_span(&mut line, cheap);
            line.append(" ¥");
            push_price4(&mut line, cheap.price);
            line.append("/kWh");
            assert(line@ =~= "今日最低电价: "@ + span_text(*cheap) + " ¥"@ + price4_text(cheap.price as nat) + "/kWh"@);
            lines.push(line);
        },
        None => {},
    }
    match most_expensive {
        Some(expensive) => {
            let mut line = "今日最高电价: ".to_owned();
            push_span(&mut line, expensive);
            line.append(" ¥");
            push_price4(&mut line, expensive.price);
            line.append("/kWh");
            assert(line@ =~= "今日最高电价: "@ + span_text(*expensive) + " ¥"@ + price4_text(expensive.price as nat) + "/kWh"@);
            lines.push(line);
        },
        None => {},
    }
    match current {
        Some(curr) => match cheapest {
            Some(cheap) => {
                if curr.tier == PriceTier::Peak {
                    proof {
                        let k = choose|k: int| crate::models::price::is_cheapest_at(ps, k);
                        let j = choose|j: int| crate::models::price::is_first_covering(ps, hour as int, j);
                        assert(ps[k].price <= ps[j].price);
                    }
                    let saving = curr.price - cheap.price;
                    let mut line = "如果等到 ".to_owned();
                    push_span(&mut line, cheap);
                    line.append(" 用电，每 kWh 可省 ¥");
                    push_price4(&mut line, saving);
                    assert(line@ =~= saving_line(*curr, *cheap));
                    lines.push(line);
                }
            },
            None => {},
        },
        None => {},
    }
    assert(lines.deep_view() =~= want);
    join_with_breaks(&lines)
}

/// Whether `r` and `new` are what serving the schedule of `region` on
/// `date` makes of cache `old`, with the lookup at time `t1` and a fetched
/// answer stored at time `t2`: a schedule fresh in the cache at `t1` is handed
/// back and nothing changes, and the provider is not asked; otherwise the
/// provider's answer for this region and this date is handed back and, where
/// it is a schedule, stored.
pub open spec fn served<P: PriceProvider>(
    old: PriceCache,
    new: PriceCache,
    provider: P,
    region: Region,
    date: CalendarDate,
    t1: int,
    t2: int,
    r: Result<DailyPriceSchedule, AppError>,
) -> bool {
    match old.cached_at(region.province@, date, t1) {
        Some(c) => r matches Ok(s) && same_schedule(s, c) && PriceCache::same_contents(old, new),
        None => exists|out: Result<DailyPriceSchedule, AppError>|
            #[trigger] call_ensures(P::prices_for_date, (&provider, &region, date), out)
                && PriceCache::fetched(old, new, out, r, t2),
    }
}

/// Whether `r` is what the advice step makes of `cur`, the schedule served
/// for today: the advice for it at some hour, or its error.
pub open spec fn advised(cur: Result<DailyPriceSchedule, AppError>, r: Result<String, AppError>) -> bool {
    match cur {
        Ok(s) => r matches Ok(t) && advice_at_some_hour(t@, s),
        Err(e) => r == Err::<String, AppError>(e),
    }
}

/// Whether `r` is what the advice step makes of `cur` at a reading of the
/// local clock: the advice for today's schedule at the hour that the clock
/// shows, or the schedule's error.
pub open spec fn advised_now(cur: Result<DailyPriceSchedule, AppError>, r: Result<String, AppError>) -> bool {
    match cur {
        Ok(s) => r matches Ok(t) && exists|now: TimeOfDay| #[trigger] is_local_time(now)
            && t@ == join_lines(advice_lines(s.periods@, now.hour as int)),
        Err(e) => r == Err::<String, AppError>(e),
    }
}

/// Whether `t` is the advice for schedule `s` at some hour of the day.
pub open spec fn advice_at_some_hour(t: Seq<char>, s: DailyPriceSchedule) -> bool {
    exists|hour: int| 0 <= hour < 24 && t == join_lines(#[trigger] advice_lines(s.periods@, hour))
}

/// The service: a provider behind a cache.
pub struct PriceService<P: PriceProvider> {
    provider: P,
    cache: PriceCache,
}

impl<P: PriceProvider> PriceService<P> {
    /// The service's cache.
    pub closed spec fn cache(self) -> PriceCache {
        self.cache
    }

    /// The service's provider.
    pub closed spec fn provider_of(self) -> P {
        self.provider
    }

    /// The service's provider.
    pub fn provider(&self) -> (r: &P)
        ensures
            *r == self.provider_of(),
    {
        &self.provider
    }

    /// The service's invariant: its cache's.
    pub open spec fn wf(self) -> bool {
        self.cache().wf()
    }

    /// A service over a provider, with an empty cache whose entries stay
    /// fresh for the configured time.
    pub fn new(provider: P, config: &AppConfig) -> (r: PriceService<P>)
        ensures
            r.wf(),
            r.provider_of() == provider,
            r.cache().ttl() == config.cache.ttl * 1_000_000_000,
            PriceCache::is_empty(r.cache()),
    {
        PriceService { provider, cache: PriceCache::new(config) }
    }

    /// The schedule of a region on a date: the cached one while fresh,
    /// otherwise the provider's, which is then cached.
    fn get_schedule(&mut self, region: &Region, date: CalendarDate) -> (r: Result<DailyPriceSchedule, AppError>)
        requires
            old(self).wf(),
        ensures
            final(self).wf(),
            final(self).provider_of() == old(self).provider_of(),
            PriceCache::same_clock(old(self).cache(), final(self).cache()),
            exists|t1: u128, t2: u128|
                old(self).cache().clock_shows(t1) && old(self).cache().clock_shows(t2) &&
                #[trigger] served(old(self).cache(), final(self).cache(), old(self).provider_of(), *region, date, t1 as int, t2 as int, r),
    {
        let provider = &self.provider;
        let fetcher = || -> (o: Result<DailyPriceSchedule, AppError>)
            ensures
                call_ensures(P::prices_for_date, (provider, region, date), o),
            { provider.prices_for_date(region, date) };
        let ghost old_cache = self.cache;
        let r = self.cache.get_or_fetch(region, &date, fetcher);
        proof {
            let (t1, t2) = choose|t1: u128, t2: u128|
                old_cache.clock_shows(t1) && old_cache.clock_shows(t2) &&
                PriceCache::lookup_or_fetch(old_cache, self.cache, region.province@, date, t1 as int, t2 as int, r, fetcher);
            if old_cache.cached_at(region.province@, date, t1 as int) is None {
                let out = choose|out: Result<DailyPriceSchedule, AppError>|
                    call_ensures(fetcher, (), out) && PriceCache::fetched(old_cache, self.cache, out, r, t2 as int);
                assert(call_ensures(P::prices_for_date, (provider, region, date), out));
            }
            assert(served(old_cache, self.cache, self.provider, *region, date, t1 as int, t2 as int, r));
            assert(served(old(self).cache(), self.cache(), old(self).provider_of(), *region, date, t1 as int, t2 as int, r));
        }
        r
    }

    /// The schedule of a region on a date: the cached one while fresh,
    /// otherwise the provider's answer for them, which is then cached.
    pub fn prices_for_date(&mut self, region: &Region, date: CalendarDate) -> (r: Result<DailyPriceSchedule, AppError>)
        requires
            old(self).wf(),
        ensures
            final(self).wf(),
            final(self).provider_of() == old(self).provider_of(),
            PriceCache::same_clock(old(self).cache(), final(self).cache()),
            exists|t1: u128, t2: u128|
                old(self).cache().clock_shows(t1) && old(self).cache().clock_shows(t2) &&
                #[trigger] served(old(self).cache(), final(self).cache(), old(self).provider_of(), *region, date, t1 as int, t2 as int, r),
    {
        self.get_schedule(region, date)
    }

    /// Today's schedule of a region, by the local clock: served as
    /// `prices_for_date` serves today's date.
    pub fn current_price(&mut self, region: &Region) -> (r: Result<DailyPriceSchedule, AppError>)
        requires
            old(self).wf(),
        ensures
            final(self).wf(),
            final(self).provider_of() == old(self).provider_of(),
            PriceCache::same_clock(old(self).cache(), final(self).cache()),
            exists|date: CalendarDate, t1: u128, t2: u128|
                is_local_date(date) && old(self).cache().clock_shows(t1) && old(self).cache().clock_shows(t2) &&
                #[trigger] served(old(self).cache(), final(self).cache(), old(self).provider_of(), *region, date, t1 as int, t2 as int, r),
    {
        let today = CalendarDate::today_local();
        let r = self.get_schedule(region, today);
        proof {
            let (t1, t2) = choose|t1: u128, t2: u128|
                old(self).cache().clock_shows(t1) && old(self).cache().clock_shows(t2) &&
                #[trigger] served(old(self).cache(), self.cache(), old(self).provider_of(), *region, today, t1 as int, t2 as int, r);
            assert(served(old(self).cache(), self.cache(), old(self).provider_of(), *region, today, t1 as int, t2 as int, r));
        }
        r
    }

    /// Today's schedule of a region: the same as `current_price`.
    pub fn today_prices(&mut self, region: &Region) -> (r: Result<DailyPriceSchedule, AppError>)
        requires
            old(self).wf(),
        ensures
            final(self).wf(),
            final(self).provider_of() == old(self).provider_of(),
            PriceCache::same_clock(old(self).cache(), final(self).cache()),
            exists|date: CalendarDate, t1: u128, t2: u128|
                is_local_date(date) && old(self).cache().clock_shows(t1) && old(self).cache().clock_shows(t2) &&
                #[trigger] served(old(self).cache(), final(self).cache(), old(self).provider_of(), *region, date, t1 as int, t2 as int, r),
    {
        self.current_price(region)
    }

    /// Advice for using electricity now in a region, from today's schedule
    /// (served as `current_price` serves it) at the current hour of the
    /// local clock; the error of that schedule where there is one.
    pub fn recommend(&mut self, region: &Region) -> (r: Result<String, AppError>)
        requires
            old(self).wf(),
        ensures
            final(self).wf(),
            final(self).provider_of() == old(self).provider_of(),
            PriceCache::same_clock(old(self).cache(), final(self).cache()),
            exists|cur: Result<DailyPriceSchedule, AppError>, date: CalendarDate, t1: u128, t2: u128|
                is_local_date(date) && old(self).cache().clock_shows(t1) && old(self).cache().clock_shows(t2) &&
                #[trigger] served(old(self).cache(), final(self).cache(), old(self).provider_of(), *region, date, t1 as int, t2 as int, cur)
                    && advised(cur, r) && advised_now(cur, r),
    {
        let cur = self.current_price(region);
        let ghost cur_g = cur;
        let schedule = match cur {
            Ok(s) => s,
            Err(e) => {
                assert(advised(cur_g, Err::<String, AppError>(e)));
                assert(advised_now(cur_g, Err::<String, AppError>(e)));
                return Err(e);
            },
        };
        let now = TimeOfDay::now_local();
        let text = recommendation_text(&schedule, now.hour);
        assert(advice_at_some_hour(text@, schedule));
        assert(advised(cur_g, Ok::<String, AppError>(text)));
        assert(advised_now(cur_g, Ok::<String, AppError>(text)));
        Ok(text)
    }

    /// Forgets every cached schedule.
    pub fn clear_cache(&mut self)
        requires
            old(self).wf(),
        ensures
            final(self).wf(),
            final(self).provider_of() == old(self).provider_of(),
            PriceCache::is_empty(final(self).cache()),
    {
        self.cache.clear();
    }
}


/// The saving named in peak advice is never negative: the cheapest period
/// costs no more than the period in force.
pub proof fn law_saving_not_negative(ps: Seq<PricePeriod>, hour: int)
    requires
        period_at(ps, hour) is Some,
    ensures
        cheapest_of(ps) matches Some(c) && c.price <= period_at(ps, hour)->0.price,
{
    let j = choose|j: int| crate::models::price::is_first_covering(ps, hour, j);
    crate::models::price::law_cheapest_below_dearest(ps, j);
}


/// Asking twice: once the provider's schedule for a region and a date has
/// been served and stored, asking again while it is fresh hands the same
/// schedule back from the cache, without asking the provider, and leaves
/// the cache as it was.
pub proof fn law_second_request_hits_cache<P: PriceProvider>(
    c0: PriceCache,
    c1: PriceCache,
    c2: PriceCache,
    provider: P,
    region: Region,
    date: CalendarDate,
    t1: int,
    t2: int,
    u1: int,
    u2: int,
    r1: Result<DailyPriceSchedule, AppError>,
    r2: Result<DailyPriceSchedule, AppError>,
)
    requires
        0 <= t2 <= u128::MAX,
        c0.cached_at(region.province@, date, t1) is None,
        served(c0, c1, provider, region, date, t1, t2, r1),
        r1 matches Ok(s) && s.region.province@ == region.province@ && s.date == date,
        crate::service::cache::is_fresh(t2, u1, c1.ttl()),
        served(c1, c2, provider, region, date, u1, u2, r2),
    ensures
        r2 matches Ok(x) && r1 matches Ok(s) && same_schedule(x, s),
        PriceCache::same_contents(c1, c2),
{
    let out = choose|out: Result<DailyPriceSchedule, AppError>|
        call_ensures(P::prices_for_date, (&provider, &region, date), out)
            && PriceCache::fetched(c0, c1, out, r1, t2);
    let so = out->Ok_0;
    assert(c1.entry(so.region.province@, so.date) == Some(
        crate::service::cache::CacheEntry { schedule: so, inserted_at: t2 as u128 },
    ));
    assert(c1.cached_at(region.province@, date, u1) == Some(so));
}

/// Advice is given for the hour the local clock shows: whatever the advice
/// step answers for today's schedule `s` is the advice for `s` at the hour
/// of a reading of the local clock, and it opens with the tip for the tier
/// of the period in force at that hour.
pub proof fn law_advice_at_clock_hour(s: DailyPriceSchedule, r: Result<String, AppError>)
    requires
        advised_now(Ok(s), r),
    ensures
        r matches Ok(t) && exists|c: (i32, u32, u32, u8, u8, u8)| #[trigger] local_clock_reading(c)
            && t@ == join_lines(advice_lines(s.periods@, c.3 as int))
            && (period_at(s.periods@, c.3 as int) matches Some(p) ==> advice_lines(s.periods@, c.3 as int)[0]
                == tip_line(p.tier)),
{
    let t = r->Ok_0;
    let now = choose|now: TimeOfDay| #[trigger] is_local_time(now)
        && t@ == join_lines(advice_lines(s.periods@, now.hour as int));
    let c = choose|c: (i32, u32, u32, u8, u8, u8)| #[trigger] local_clock_reading(c)
        && now.hour == c.3 && now.minute == c.4 && now.second == c.5;
    assert(local_clock_reading(c) && t@ == join_lines(advice_lines(s.periods@, c.3 as int)));
}

}
