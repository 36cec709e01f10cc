//! A provider of fixed test tariffs.

use vstd::prelude::*;
use crate::api::traits::PriceProvider;
use crate::date::{CalendarDate, is_local_date, local_clock_reading};
use crate::error::AppError;
use crate::models::price::{DailyPriceSchedule, PricePeriod, PriceTier, Season, season_of_month};
use crate::models::price_type::UsageType;
use crate::models::region::Region;
use crate::api::sgcc::is_day_tiling;

verus! {

/// A period of the test tariffs.
pub open spec fn test_period(tier: PriceTier, start: u8, end: u8, price: u32, season: Season) -> PricePeriod {
    PricePeriod { tier, start_hour: start, end_hour: end, price, season }
}

/// The test tariff of a usage type in a season. Residential: valley 0-8 and
/// 21-24 at ¥0.3583, peak 8-21 at ¥0.5583. Charging: valley 0-7, 11-13 and
/// 22-24 at ¥0.3783, peak 7-11 and 13-22 at ¥0.5783.
pub open spec fn mock_periods(u: UsageType, season: Season) -> Seq<PricePeriod> {
    match u {
        UsageType::Residential => seq![
            test_period(PriceTier::Valley, 0, 8, 3583, season),
            test_period(PriceTier::Peak, 8, 21, 5583, season),
            test_period(PriceTier::Valley, 21, 24, 3583, season),
        ],
        UsageType::Charging => seq![
            test_period(PriceTier::Valley, 0, 7, 3783, season),
            test_period(PriceTier::Peak, 7, 11, 5783, season),
            test_period(PriceTier::Valley, 11, 13, 3783, season),
            test_period(PriceTier::Peak, 13, 22, 5783, season),
            test_period(PriceTier::Valley, 22, 24, 3783, season),
        ],
    }
}

/// A provider that answers every region with a fixed test tariff.
#[derive(Debug, Clone, Copy)]
pub struct MockProvider {
    pub usage_type: UsageType,
}

impl Default for MockProvider {
    fn default() -> (r: MockProvider)
        ensures
            r.usage_type == UsageType::Residential,
    {
        MockProvider::new(UsageType::Residential)
    }
}

impl MockProvider {
    /// The provider of the test tariff of a usage type.
    pub fn new(usage_type: UsageType) -> (r: MockProvider)
        ensures
            r.usage_type == usage_type,
    {
        MockProvider { usage_type }
    }

    /// The test schedule of a region on a date.
    pub fn build_mock_schedule(&self, region: &Region, date: CalendarDate) -> (r: DailyPriceSchedule)
        ensures
            r.date == date,
            r.region == *region,
            r.periods@ == mock_periods(self.usage_type, season_of_month(date.spec_month())),
    {
        let season = Season::from_month(date.month());
        let mut periods: Vec<PricePeriod> = Vec::new();
        match self.usage_type {
            UsageType::Residential => {
                periods.push(PricePeriod { tier: PriceTier::Valley, start_hour: 0, end_hour: 8, price: 3583, season });
                periods.push(PricePeriod { tier: PriceTier::Peak, start_hour: 8, end_hour: 21, price: 5583, season });
                periods.push(PricePeriod { tier: PriceTier::Valley, start_hour: 21, end_hour: 24, price: 3583, season });
            },
            UsageType::Charging => {
                periods.push(PricePeriod { tier: PriceTier::Valley, start_hour: 0, end_hour: 7, price: 3783, season });
                periods.push(PricePeriod { tier: PriceTier::Peak, start_hour: 7, end_hour: 11, price: 5783, season });
                periods.push(PricePeriod { tier: PriceTier::Valley, start_hour: 11, end_hour: 13, price: 3783, season });
                periods.push(PricePeriod { tier: PriceTier::Peak, start_hour: 13, end_hour: 22, price: 5783, season });
                periods.push(PricePeriod { tier: PriceTier::Valley, start_hour: 22, end_hour: 24, price: 3783, season });
            },
        }
        assert(periods@ =~= mock_periods(self.usage_type, season));
        DailyPriceSchedule { date, region: region.clone(), periods }
    }
}

impl PriceProvider for MockProvider {
    fn prices_for_date(&self, region: &Region, date: CalendarDate) -> (r: Result<DailyPriceSchedule, AppError>)
        ensures
            r matches Ok(s) && s.date == date && s.region == *region && s.periods@ == mock_periods(
                self.usage_type,
                season_of_month(date.spec_month()),
            ),
    {
        Ok(self.build_mock_schedule(region, date))
    }

    fn name(&self) -> (r: &str)
        ensures
            r@ == "Mock (测试数据)"@,
    {
        "Mock (测试数据)"
    }

    fn supports_region(&self, region: &Region) -> (r: bool)
        ensures
            r,
    {
        true
    }

    fn today_prices(&self, region: &Region) -> (r: Result<DailyPriceSchedule, AppError>)
        ensures
            r matches Ok(s) && is_local_date(s.date) && s.region == *region && s.periods@ == mock_periods(
                self.usage_type,
                season_of_month(s.date.spec_month()),
            ),
    {
        let today = CalendarDate::today_local();
        self.prices_for_date(region, today)
    }

    fn current_price(&self, region: &Region) -> (r: Result<DailyPriceSchedule, AppError>)
        ensures
            r matches Ok(s) && is_local_date(s.date) && s.region == *region && s.periods@ == mock_periods(
                self.usage_type,
                season_of_month(s.date.spec_month()),
            ),
    {
        self.today_prices(region)
    }
}


/// Each test tariff lays consecutive periods over the whole day, from hour 0
/// to hour 24, so every hour has exactly one period.
pub proof fn law_mock_tiles_day(u: UsageType, season: Season)
    ensures
        is_day_tiling(mock_periods(u, season)),
{
    let ps = mock_periods(u, season);
    assert forall|i: int, j: int| #![trigger ps[i], ps[j]] 0 <= i && j == i + 1 && j < ps.len()
        implies ps[i].end_hour == ps[j].start_hour by {
        match u {
            UsageType::Residential => {
                assert(i == 0 || i == 1);
            },
            UsageType::Charging => {
                assert(0 <= i <= 3);
            },
        }
    }
}

/// Today's test schedule is the one of the local clock's date: whatever
/// `today_prices` of a test provider answers is a schedule for the region
/// whose date is the date of a reading of the local clock, laid out with the
/// test tariff of that date's season.
pub proof fn law_mock_today_is_clock_date(m: MockProvider, region: Region, r: Result<DailyPriceSchedule, AppError>)
    requires
        call_ensures(MockProvider::today_prices, (&m, &region), r),
    ensures
        r matches Ok(s) && s.region == region && (exists|c: (i32, u32, u32, u8, u8, u8)|
            #[trigger] local_clock_reading(c) && s.date.spec_year() == c.0
                && s.date.spec_month() == c.1 && s.date.spec_day() == c.2)
            && s.periods@ == mock_periods(m.usage_type, season_of_month(s.date.spec_month())),
{
}

}
