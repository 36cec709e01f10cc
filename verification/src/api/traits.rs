//! The interface of a tariff provider.

use vstd::prelude::*;
use crate::date::{CalendarDate, is_local_date};
use crate::error::AppError;
use crate::models::price::DailyPriceSchedule;
use crate::models::region::Region;

verus! {

/// A source of daily tariffs.
pub trait PriceProvider {
    /// The schedule of a region on a date.
    fn prices_for_date(&self, region: &Region, date: CalendarDate) -> Result<DailyPriceSchedule, AppError>;

    /// The provider's name.
    fn name(&self) -> &str;

    /// Whether the provider knows the region's tariff.
    fn supports_region(&self, region: &Region) -> bool;

    /// Today's schedule of a region, by the local clock: what
    /// `prices_for_date` answers for the date of a reading of the local
    /// clock.
    fn today_prices(&self, region: &Region) -> (r: Result<DailyPriceSchedule, AppError>)
        ensures
            exists|d: CalendarDate| is_local_date(d) && #[trigger] call_ensures(Self::prices_for_date, (self, region, d), r),
    {
        let today = CalendarDate::today_local();
        let r = self.prices_for_date(region, today);
        assert(call_ensures(Self::prices_for_date, (self, region, today), r));
        r
    }

    /// The schedule in force now: today's.
    fn current_price(&self, region: &Region) -> (r: Result<DailyPriceSchedule, AppError>)
        ensures
            exists|d: CalendarDate| is_local_date(d) && #[trigger] call_ensures(Self::prices_for_date, (self, region, d), r),
    {
        self.today_prices(region)
    }
}

}
