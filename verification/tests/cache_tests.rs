use peak_valley_price::config::AppConfig;
use peak_valley_price::date::CalendarDate;
use peak_valley_price::error::AppError;
use peak_valley_price::models::price::{DailyPriceSchedule, PricePeriod, PriceTier, Season};
use peak_valley_price::models::region::Region;
use peak_valley_price::service::cache::PriceCache;

const SEC: u128 = 1_000_000_000;

fn schedule_for(region: Region, date: CalendarDate, price: u32) -> DailyPriceSchedule {
    DailyPriceSchedule {
        date,
        region,
        periods: vec![PricePeriod { tier: PriceTier::Flat, start_hour: 0, end_hour: 24, price, season: Season::Winter }],
    }
}

#[test]
fn test_cache_set_get() {
    let config = AppConfig::default_config();
    let mut cache = PriceCache::new(&config);
    let region = Region::jiangsu_wuxi();
    let today = CalendarDate::today_local();

    let schedule = DailyPriceSchedule {
        date: today,
        region: region.clone(),
        periods: vec![],
    };

    cache.set(schedule.clone());
    let cached = cache.get(&region, &today);
    assert!(cached.is_some());
}

#[test]
fn entries_expire_after_the_ttl() {
    let mut cache = PriceCache::new(&AppConfig::default_config());
    let region = Region::jiangsu_wuxi();
    let date = CalendarDate::new(2024, 1, 15).unwrap();
    cache.set_at(schedule_for(region.clone(), date, 5000), 10 * SEC);
    assert_eq!(cache.get_at(&region, &date, 10 * SEC).unwrap().periods[0].price, 5000);
    assert!(cache.get_at(&region, &date, 10 * SEC + 3599 * SEC).is_some());
    assert!(cache.get_at(&region, &date, 10 * SEC + 3600 * SEC).is_none());
    assert!(cache.get_at(&region, &date, 0).is_some());
    let other = CalendarDate::new(2024, 1, 16).unwrap();
    assert!(cache.get_at(&region, &other, 10 * SEC).is_none());
}

#[test]
fn cities_of_a_province_share_entries() {
    let mut cache = PriceCache::new(&AppConfig::default_config());
    let date = CalendarDate::new(2024, 1, 15).unwrap();
    cache.set_at(schedule_for(Region::new("jiangsu", "nanjing"), date, 4200), 0);
    let got = cache.get_at(&Region::jiangsu_wuxi(), &date, 1).unwrap();
    assert_eq!(got.region.city, "nanjing");
    assert!(cache.get_at(&Region::new("zhejiang", "hangzhou"), &date, 1).is_none());
    cache.set_at(schedule_for(Region::jiangsu_wuxi(), date, 4300), 2);
    assert_eq!(cache.get_at(&Region::new("jiangsu", "nanjing"), &date, 3).unwrap().periods[0].price, 4300);
}

#[test]
fn zero_ttl_keeps_nothing_fresh() {
    let mut config = AppConfig::default_config();
    config.cache.ttl = 0;
    let mut cache = PriceCache::new(&config);
    let date = CalendarDate::new(2024, 1, 15).unwrap();
    cache.set_at(schedule_for(Region::jiangsu_wuxi(), date, 1), 5);
    assert!(cache.get_at(&Region::jiangsu_wuxi(), &date, 5).is_none());
}

#[test]
fn cleanup_and_clear() {
    let mut cache = PriceCache::new(&AppConfig::default_config());
    let a = CalendarDate::new(2024, 1, 15).unwrap();
    let b = CalendarDate::new(2024, 1, 16).unwrap();
    let region = Region::jiangsu_wuxi();
    cache.set_at(schedule_for(region.clone(), a, 1), 0);
    cache.set_at(schedule_for(region.clone(), b, 2), 3000 * SEC);
    cache.cleanup_expired_at(3700 * SEC);
    assert!(cache.get_at(&region, &a, 0).is_none());
    assert!(cache.get_at(&region, &b, 3700 * SEC).is_some());
    cache.cleanup_expired();
    cache.clear();
    assert!(cache.get_at(&region, &b, 3000 * SEC).is_none());
}

#[test]
fn get_or_fetch_fetches_once() {
    let mut cache = PriceCache::new(&AppConfig::default_config());
    let region = Region::jiangsu_wuxi();
    let date = CalendarDate::new(2024, 1, 15).unwrap();
    let mut calls = 0;
    let r = cache.get_or_fetch_at(&region, &date, 0, || {
        calls += 1;
        Ok(schedule_for(Region::jiangsu_wuxi(), CalendarDate::new(2024, 1, 15).unwrap(), 7))
    });
    assert_eq!(r.unwrap().periods[0].price, 7);
    let r = cache.get_or_fetch_at(&region, &date, SEC, || {
        calls += 1;
        Ok(schedule_for(Region::jiangsu_wuxi(), CalendarDate::new(2024, 1, 15).unwrap(), 8))
    });
    assert_eq!(r.unwrap().periods[0].price, 7);
    assert_eq!(calls, 1);
    let e = cache.get_or_fetch_at(&region, &CalendarDate::new(2024, 1, 17).unwrap(), 0, || Err(AppError::Api("down".to_string())));
    assert!(matches!(e, Err(AppError::Api(_))));
    assert!(cache.get_at(&region, &CalendarDate::new(2024, 1, 17).unwrap(), 0).is_none());
    let live = cache.get_or_fetch(&region, &date, || Err(AppError::Api("unused".to_string())));
    assert!(live.is_ok());
}
