//! Price tiers, seasons, tariff periods and daily schedules.
//!
//! Prices are held in ten-thousandths of a yuan per kWh: 3583 stands for
//! ¥0.3583/kWh.

use vstd::prelude::*;
use vstd::string::*;
use crate::date::{CalendarDate, TimeOfDay};
use crate::models::region::{Region, region_display};
use crate::text::{padded, price2_text, price4_text, push_padded, push_price2, push_price4, push_repeated, repeat_char};

verus! {

/// The tier of a tariff period.
#[derive(Debug, Clone, Copy, PartialEq, Eq, Structural)]
pub enum PriceTier {
    Peak,
    Flat,
    Valley,
}

/// The Chinese label of a tier.
pub open spec fn tier_label(t: PriceTier) -> Seq<char> {
    match t {
        PriceTier::Peak => "高峰"@,
        PriceTier::Flat => "平段"@,
        PriceTier::Valley => "低谷"@,
    }
}

impl PriceTier {
    /// The Chinese label, such as "高峰".
    pub fn label(&self) -> (r: &'static str)
        ensures
            r@ == tier_label(*self),
    {
        match self {
            PriceTier::Peak => "高峰",
            PriceTier::Flat => "平段",
            PriceTier::Valley => "低谷",
        }
    }
}

/// A season of the tariff year.
#[derive(Debug, Clone, Copy, PartialEq, Eq, Structural)]
pub enum Season {
    Summer,
    Winter,
    Spring,
    Autumn,
}

/// The season of a month: July and August are summer, December and January
/// winter, March to May spring, every other month autumn.
pub open spec fn season_of_month(month: int) -> Season {
    if month == 7 || month == 8 {
        Season::Summer
    } else if month == 12 || month == 1 {
        Season::Winter
    } else if 3 <= month <= 5 {
        Season::Spring
    } else {
        Season::Autumn
    }
}

/// The Chinese label of a season.
pub open spec fn season_label(s: Season) -> Seq<char> {
    match s {
        Season::Summer => "夏季"@,
        Season::Winter => "冬季"@,
        Season::Spring => "春季"@,
        Season::Autumn => "秋季"@,
    }
}

impl Season {
    /// The season of a month number.
    pub fn from_month(month: u32) -> (r: Season)
        ensures
            r == season_of_month(month as int),
    {
        if month == 7 || month == 8 {
            Season::Summer
        } else if month == 12 || month == 1 {
            Season::Winter
        } else if 3 <= month && month <= 5 {
            Season::Spring
        } else {
            Season::Autumn
        }
    }

    /// The Chinese label, such as "夏季".
    pub fn label(&self) -> (r: &'static str)
        ensures
            r@ == season_label(*self),
    {
        match self {
            Season::Summer => "夏季",
            Season::Winter => "冬季",
            Season::Spring => "春季",
            Season::Autumn => "秋季",
        }
    }
}

/// Whether the hours from `start` up to `end` cover `hour`; where `start` is
/// not below `end` the span wraps around midnight.
pub open spec fn span_covers(start: int, end: int, hour: int) -> bool {
    if start < end {
        start <= hour && hour < end
    } else {
        hour >= start || hour < end
    }
}

/// The number of hours from `start` to `end`, wrapping around midnight.
pub open spec fn span_length(start: int, end: int) -> int {
    if start < end {
        end - start
    } else {
        (24 - start) + end
    }
}

/// One period of a daily tariff.
#[derive(Debug, Clone, Copy, PartialEq, Eq, Structural)]
pub struct PricePeriod {
    pub tier: PriceTier,
    pub start_hour: u8,
    pub end_hour: u8,
    /// Ten-thousandths of a yuan per kWh.
    pub price: u32,
    pub season: Season,
}

/// A period as it is shown: tier, hours and the price to two decimals.
pub open spec fn period_text(p: PricePeriod) -> Seq<char> {
    tier_label(p.tier) + " "@ + padded(p.start_hour as nat, 2) + ":00-"@ + padded(
        p.end_hour as nat,
        2,
    ) + ":00 ¥"@ + price2_text(p.price as nat) + "/kWh"@
}

impl PricePeriod {
    /// Whether the period covers `hour`.
    pub open spec fn covers(self, hour: int) -> bool {
        span_covers(self.start_hour as int, self.end_hour as int, hour)
    }

    /// Whether the period covers the given hour.
    pub fn contains_hour(&self, hour: u8) -> (r: bool)
        ensures
            r == self.covers(hour as int),
    {
        if self.start_hour < self.end_hour {
            hour >= self.start_hour && hour < self.end_hour
        } else {
            hour >= self.start_hour || hour < self.end_hour
        }
    }

    /// The length of the period in hours.
    pub fn duration_hours(&self) -> (r: u8)
        requires
            self.start_hour < self.end_hour || (self.start_hour <= 24 && 24 - self.start_hour
                + self.end_hour <= 255),
        ensures
            r == span_length(self.start_hour as int, self.end_hour as int),
    {
        if self.start_hour < self.end_hour {
            self.end_hour - self.start_hour
        } else {
            (24 - self.start_hour) + self.end_hour
        }
    }

    /// The period as shown, such as "高峰 08:00-21:00 ¥0.56/kWh".
    pub fn describe(&self) -> (r: String)
        ensures
            r@ == period_text(*self),
    {
        let mut out = self.tier.label().to_owned();
        out.append(" ");
        push_padded(&mut out, self.start_hour as u64, 2);
        out.append(":00-");
        push_padded(&mut out, self.end_hour as u64, 2);
        out.append(":00 ¥");
        push_price2(&mut out, self.price);
        out.append("/kWh");
        assert(out@ =~= period_text(*self));
        out
    }
}

/// Whether `i` is the first period of `s` that covers `hour`.
pub open spec fn is_first_covering(s: Seq<PricePeriod>, hour: int, i: int) -> bool {
    &&& 0 <= i < s.len()
    &&& s[i].covers(hour)
    &&& forall|j: int| 0 <= j < i ==> !(#[trigger] s[j]).covers(hour)
}

/// The first period of `s` that covers `hour`, if any.
pub open spec fn period_at(s: Seq<PricePeriod>, hour: int) -> Option<PricePeriod> {
    if exists|i: int| is_first_covering(s, hour, i) {
        Some(s[choose|i: int| is_first_covering(s, hour, i)])
    } else {
        None
    }
}

/// Whether `i` is the first period of `s` with the lowest price.
pub open spec fn is_cheapest_at(s: Seq<PricePeriod>, i: int) -> bool {
    &&& 0 <= i < s.len()
    &&& forall|j: int| 0 <= j < s.len() ==> s[i].price <= (#[trigger] s[j]).price
    &&& forall|j: int| 0 <= j < i ==> (#[trigger] s[j]).price > s[i].price
}

/// The first period of `s` with the lowest price, if any.
pub open spec fn cheapest_of(s: Seq<PricePeriod>) -> Option<PricePeriod> {
    if exists|i: int| is_cheapest_at(s, i) {
        Some(s[choose|i: int| is_cheapest_at(s, i)])
    } else {
        None
    }
}

/// Whether `i` is the last period of `s` with the highest price.
pub open spec fn is_dearest_at(s: Seq<PricePeriod>, i: int) -> bool {
    &&& 0 <= i < s.len()
    &&& forall|j: int| 0 <= j < s.len() ==> s[i].price >= (#[trigger] s[j]).price
    &&& forall|j: int| i < j < s.len() ==> (#[trigger] s[j]).price < s[i].price
}

/// The last period of `s` with the highest price, if any.
pub open spec fn dearest_of(s: Seq<PricePeriod>) -> Option<PricePeriod> {
    if exists|i: int| is_dearest_at(s, i) {
        Some(s[choose|i: int| is_dearest_at(s, i)])
    } else {
        None
    }
}

/// Two indices that are both the first cover of an hour are the same.
pub proof fn lemma_first_covering_unique(s: Seq<PricePeriod>, hour: int, i: int, j: int)
    requires
        is_first_covering(s, hour, i),
        is_first_covering(s, hour, j),
    ensures
        i == j,
{
    if i < j {
        assert(!s[i].covers(hour));
    } else if j < i {
        assert(!s[j].covers(hour));
    }
}

/// Two indices that are both the first cheapest are the same.
pub proof fn lemma_cheapest_unique(s: Seq<PricePeriod>, i: int, j: int)
    requires
        is_cheapest_at(s, i),
        is_cheapest_at(s, j),
    ensures
        i == j,
{
    if i < j {
        assert(s[i].price > s[j].price);
    } else if j < i {
        assert(s[j].price > s[i].price);
    }
}

/// Two indices that are both the last dearest are the same.
pub proof fn lemma_dearest_unique(s: Seq<PricePeriod>, i: int, j: int)
    requires
        is_dearest_at(s, i),
        is_dearest_at(s, j),
    ensures
        i == j,
{
    if i < j {
        assert(s[j].price < s[i].price);
    } else if j < i {
        assert(s[i].price < s[j].price);
    }
}

/// The line of forty dashes that frames a table, with its line break.
pub open spec fn rule_line() -> Seq<char> {
    repeat_char('-', 40) + seq!['\n']
}

/// The lines that list the periods of a schedule.
pub open spec fn period_lines(s: Seq<PricePeriod>) -> Seq<char>
    decreases s.len(),
{
    if s.len() == 0 {
        seq![]
    } else {
        period_lines(s.drop_last()) + "  "@ + period_text(s.last()) + "\n"@
    }
}

/// The line that names the cheapest period, with the price to four decimals.
pub open spec fn cheapest_line(s: Seq<PricePeriod>) -> Seq<char> {
    match cheapest_of(s) {
        Some(c) => "💡 最便宜: "@ + tier_label(c.tier) + " "@ + padded(c.start_hour as nat, 2)
            + ":00-"@ + padded(c.end_hour as nat, 2) + ":00 ¥"@ + price4_text(c.price as nat)
            + "/kWh\n"@,
        None => seq![],
    }
}

/// The tariff of one day in one region.
#[derive(Debug)]
pub struct DailyPriceSchedule {
    pub date: CalendarDate,
    pub region: Region,
    pub periods: Vec<PricePeriod>,
}

/// A schedule as it is shown: a title, the periods between two rules, and
/// the cheapest period.
pub open spec fn schedule_text(s: DailyPriceSchedule) -> Seq<char> {
    "📅 "@ + s.date.text() + " "@ + region_display(s.region.province@, s.region.city@)
        + " 电价表:\n"@ + rule_line() + period_lines(s.periods@) + rule_line() + cheapest_line(
        s.periods@,
    )
}

/// Whether two schedules hold the same date, region and periods.
pub open spec fn same_schedule(a: DailyPriceSchedule, b: DailyPriceSchedule) -> bool {
    a.date == b.date && a.region == b.region && a.periods@ == b.periods@
}

/// A copy of a list of periods.
pub fn copy_periods(v: &Vec<PricePeriod>) -> (r: Vec<PricePeriod>)
    ensures
        r@ == v@,
{
    let mut r: Vec<PricePeriod> = Vec::new();
    let mut i: usize = 0;
    while i < v.len()
        invariant
            i <= v@.len(),
            r@ == v@.subrange(0, i as int),
        decreases v@.len() - i,
    {
        r.push(v[i]);
        i = i + 1;
        assert(r@ =~= v@.subrange(0, i as int));
    }
    assert(v@.subrange(0, v@.len() as int) =~= v@);
    r
}

impl Clone for DailyPriceSchedule {
    fn clone(&self) -> (r: DailyPriceSchedule)
        ensures
            r.date == self.date,
            r.region == self.region,
            r.periods@ == self.periods@,
    {
        DailyPriceSchedule {
            date: self.date,
            region: self.region.clone(),
            periods: copy_periods(&self.periods),
        }
    }
}

impl DailyPriceSchedule {
    /// The first period that covers the hour, if any.
    pub fn price_at_hour(&self, hour: u8) -> (r: Option<&PricePeriod>)
        ensures
            r is Some <==> period_at(self.periods@, hour as int) is Some,
            r matches Some(p) ==> period_at(self.periods@, hour as int) == Some(*p),
    {
        let mut i: usize = 0;
        while i < self.periods.len()
            invariant
                i <= self.periods@.len(),
                forall|j: int| 0 <= j < i ==> !(#[trigger] self.periods@[j]).covers(hour as int),
            decreases self.periods@.len() - i,
        {
            if self.periods[i].contains_hour(hour) {
                proof {
                    let s = self.periods@;
                    assert(is_first_covering(s, hour as int, i as int));
                    let k = choose|k: int| is_first_covering(s, hour as int, k);
                    lemma_first_covering_unique(s, hour as int, i as int, k);
                }
                return Some(&self.periods[i]);
            }
            i = i + 1;
        }
        None
    }

    /// The period in force at a time of day.
    pub fn current_price(&self, now: TimeOfDay) -> (r: Option<&PricePeriod>)
        ensures
            r is Some <==> period_at(self.periods@, now.hour as int) is Some,
            r matches Some(p) ==> period_at(self.periods@, now.hour as int) == Some(*p),
    {
        self.price_at_hour(now.hour)
    }

    /// The first period with the lowest price, if any.
    pub fn cheapest_period(&self) -> (r: Option<&PricePeriod>)
        ensures
            r is Some <==> self.periods@.len() > 0,
            r is Some <==> cheapest_of(self.periods@) is Some,
            r matches Some(p) ==> cheapest_of(self.periods@) == Some(*p),
    {
        let n = self.periods.len();
        if n == 0 {
            return None;
        }
        let mut best: usize = 0;
        let mut i: usize = 1;
        while i < n
            invariant
                n == self.periods@.len(),
                1 <= i <= n,
                best < i,
                forall|j: int| 0 <= j < i ==> self.periods@[best as int].price <= (#[trigger] self.periods@[j]).price,
                forall|j: int| 0 <= j < best ==> (#[trigger] self.periods@[j]).price > self.periods@[best as int].price,
            decreases n - i,
        {
            if self.periods[i].price < self.periods[best].price {
                best = i;
            }
            i = i + 1;
        }
        proof {
            let s = self.periods@;
            assert(is_cheapest_at(s, best as int));
            let k = choose|k: int| is_cheapest_at(s, k);
            lemma_cheapest_unique(s, best as int, k);
        }
        Some(&self.periods[best])
    }

    /// The last period with the highest price, if any.
    pub fn most_expensive_period(&self) -> (r: Option<&PricePeriod>)
        ensures
            r is Some <==> self.periods@.len() > 0,
            r is Some <==> dearest_of(self.periods@) is Some,
            r matches Some(p) ==> dearest_of(self.periods@) == Some(*p),
    {
        let n = self.periods.len();
        if n == 0 {
            return None;
        }
        let mut best: usize = 0;
        let mut i: usize = 1;
        while i < n
            invariant
                n == self.periods@.len(),
                1 <= i <= n,
                best < i,
                forall|j: int| 0 <= j < i ==> self.periods@[best as int].price >= (#[trigger] self.periods@[j]).price,
                forall|j: int| best < j < i ==> (#[trigger] self.periods@[j]).price < self.periods@[best as int].price,
            decreases n - i,
        {
            if self.periods[i].price >= self.periods[best].price {
                best = i;
            }
            i = i + 1;
        }
        proof {
            let s = self.periods@;
            assert(is_dearest_at(s, best as int));
            let k = choose|k: int| is_dearest_at(s, k);
            lemma_dearest_unique(s, best as int, k);
        }
        Some(&self.periods[best])
    }

    /// The schedule as shown: title, one line per period between two rules,
    /// and the cheapest period.
    pub fn describe(&self) -> (r: String)
        ensures
            r@ == schedule_text(*self),
    {
        let mut out = "📅 ".to_owned();
        let date = self.date.to_text();
        out.append(date.as_str());
        out.append(" ");
        let name = self.region.display_name();
        out.append(name.as_str());
        out.append(" 电价表:\n");
        push_rule_line(&mut out);
        push_period_lines(&mut out, &self.periods);
        push_rule_line(&mut out);
        self.push_cheapest_line(&mut out);
        assert(out@ =~= schedule_text(*self));
        out
    }

    /// Appends the line that names the cheapest period.
    fn push_cheapest_line(&self, out: &mut String)
        ensures
            final(out)@ == old(out)@ + cheapest_line(self.periods@),
    {
        match self.cheapest_period() {
            Some(c) => {
                out.append("💡 最便宜: ");
                out.append(c.tier.label());
                out.append(" ");
                push_padded(out, c.start_hour as u64, 2);
                out.append(":00-");
                push_padded(out, c.end_hour as u64, 2);
                out.append(":00 ¥");
                push_price4(out, c.price);
                out.append("/kWh\n");
            },
            None => {},
        }
        assert(out@ =~= old(out)@ + cheapest_line(self.periods@));
    }
}

/// Appends a rule of forty dashes and a line break.
pub fn push_rule_line(out: &mut String)
    ensures
        final(out)@ == old(out)@ + rule_line(),
{
    proof {
        reveal_strlit("-");
        reveal_strlit("\n");
    }
    push_repeated(out, "-", 40);
    out.append("\n");
    assert(out@ =~= old(out)@ + rule_line());
}

/// Appends one line per period.
pub fn push_period_lines(out: &mut String, periods: &Vec<PricePeriod>)
    ensures
        final(out)@ == old(out)@ + period_lines(periods@),
{
    let mut i: usize = 0;
    while i < periods.len()
        invariant
            i <= periods@.len(),
            out@ == old(out)@ + period_lines(periods@.subrange(0, i as int)),
        decreases periods@.len() - i,
    {
        let ghost before = out@;
        out.append("  ");
        let line = periods[i].describe();
        out.append(line.as_str());
        out.append("\n");
        proof {
            let s = periods@.subrange(0, i + 1);
            assert(s.drop_last() =~= periods@.subrange(0, i as int));
            assert(s.last() == periods@[i as int]);
            assert(out@ =~= old(out)@ + period_lines(s));
        }
        i = i + 1;
    }
    assert(periods@.subrange(0, periods@.len() as int) =~= periods@);
}


/// The number of hours below `n` that the span from `start` to `end` covers.
pub open spec fn hours_covered(start: int, end: int, n: int) -> int
    decreases n,
{
    if n <= 0 {
        0
    } else {
        hours_covered(start, end, n - 1) + if span_covers(start, end, n - 1) {
            1int
        } else {
            0int
        }
    }
}

/// Lemma: the count of covered hours below `n`, in closed form.
proof fn lemma_hours_covered(start: int, end: int, n: int)
    requires
        0 <= start <= 24,
        0 <= end <= 24,
        0 <= n <= 24,
    ensures
        start < end ==> hours_covered(start, end, n) == if n <= start {
            0
        } else if n <= end {
            n - start
        } else {
            end - start
        },
        start >= end ==> hours_covered(start, end, n) == (if n <= end {
            n
        } else {
            end
        }) + (if n <= start {
            0
        } else {
            n - start
        }),
    decreases n,
{
    if n > 0 {
        lemma_hours_covered(start, end, n - 1);
    }
}

/// A period whose hours lie within the day covers exactly as many hours of
/// the day as its duration: `contains_hour` holds for `duration_hours` of
/// the hours 0 to 23.
pub proof fn law_period_covers_its_duration(p: PricePeriod)
    requires
        p.start_hour <= 24,
        p.end_hour <= 24,
    ensures
        hours_covered(p.start_hour as int, p.end_hour as int, 24) == span_length(
            p.start_hour as int,
            p.end_hour as int,
        ),
{
    lemma_hours_covered(p.start_hour as int, p.end_hour as int, 24);
}

/// Lemma: among the first `k` periods, the first with the lowest price.
proof fn lemma_lowest_in_prefix(s: Seq<PricePeriod>, k: int) -> (lo: int)
    requires
        1 <= k <= s.len(),
    ensures
        0 <= lo < k,
        forall|j: int| 0 <= j < k ==> s[lo].price <= (#[trigger] s[j]).price,
        forall|j: int| 0 <= j < lo ==> (#[trigger] s[j]).price > s[lo].price,
    decreases k,
{
    if k == 1 {
        0
    } else {
        let lo = lemma_lowest_in_prefix(s, k - 1);
        if s[k - 1].price < s[lo].price {
            k - 1
        } else {
            lo
        }
    }
}

/// Lemma: among the first `k` periods, the last with the highest price.
proof fn lemma_highest_in_prefix(s: Seq<PricePeriod>, k: int) -> (hi: int)
    requires
        1 <= k <= s.len(),
    ensures
        0 <= hi < k,
        forall|j: int| 0 <= j < k ==> s[hi].price >= (#[trigger] s[j]).price,
        forall|j: int| hi < j < k ==> (#[trigger] s[j]).price < s[hi].price,
    decreases k,
{
    if k == 1 {
        0
    } else {
        let hi = lemma_highest_in_prefix(s, k - 1);
        if s[k - 1].price >= s[hi].price {
            k - 1
        } else {
            hi
        }
    }
}

/// The cheapest period of a schedule costs no more than its dearest one,
/// and no period is cheaper than the cheapest or dearer than the dearest.
pub proof fn law_cheapest_below_dearest(s: Seq<PricePeriod>, i: int)
    requires
        0 <= i < s.len(),
    ensures
        cheapest_of(s) matches Some(c) && dearest_of(s) matches Some(e) && c.price <= s[i].price
            && s[i].price <= e.price,
{
    let lo = lemma_lowest_in_prefix(s, s.len() as int);
    let hi = lemma_highest_in_prefix(s, s.len() as int);
    assert(is_cheapest_at(s, lo));
    assert(is_dearest_at(s, hi));
    let a = choose|a: int| is_cheapest_at(s, a);
    let b = choose|b: int| is_dearest_at(s, b);
    lemma_cheapest_unique(s, lo, a);
    lemma_dearest_unique(s, hi, b);
}

}
