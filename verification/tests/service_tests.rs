use peak_valley_price::api::mock::MockProvider;
use peak_valley_price::cli::{apply_region, config_report, current_report, recommend_report, region_set_report, resolve_region};
use peak_valley_price::config::AppConfig;
use peak_valley_price::date::{CalendarDate, TimeOfDay};
use peak_valley_price::error::AppError;
use peak_valley_price::models::price::{DailyPriceSchedule, PricePeriod, PriceTier, Season};
use peak_valley_price::models::price_type::UsageType;
use peak_valley_price::models::region::Region;
use peak_valley_price::service::price_service::{recommendation_text, PriceService};

fn p(tier: PriceTier, s: u8, e: u8, price: u32) -> PricePeriod {
    PricePeriod { tier, start_hour: s, end_hour: e, price, season: Season::Winter }
}

fn mock_schedule() -> DailyPriceSchedule {
    DailyPriceSchedule {
        date: CalendarDate::new(2024, 1, 15).unwrap(),
        region: Region::jiangsu_wuxi(),
        periods: vec![p(PriceTier::Valley, 0, 8, 3583), p(PriceTier::Peak, 8, 21, 5583), p(PriceTier::Valley, 21, 24, 3583)],
    }
}

#[test]
fn advice_in_a_peak_hour() {
    let text = recommendation_text(&mock_schedule(), 9);
    assert_eq!(
        text,
        "当前是高峰时段，建议减少用电\n今日最低电价: 低谷 00:00-08:00 ¥0.3583/kWh\n今日最高电价: 高峰 08:00-21:00 ¥0.5583/kWh\n如果等到 低谷 00:00-08:00 用电，每 kWh 可省 ¥0.2000"
    );
}

#[test]
fn advice_in_a_valley_hour_and_without_periods() {
    let text = recommendation_text(&mock_schedule(), 22);
    assert_eq!(
        text,
        "当前是低谷时段，适合用电\n今日最低电价: 低谷 00:00-08:00 ¥0.3583/kWh\n今日最高电价: 高峰 08:00-21:00 ¥0.5583/kWh"
    );
    let mut flat = mock_schedule();
    flat.periods = vec![p(PriceTier::Flat, 0, 24, 5600)];
    assert!(recommendation_text(&flat, 3).starts_with("当前是平段时段，用电成本适中\n"));
    let mut empty = mock_schedule();
    empty.periods = vec![];
    assert_eq!(recommendation_text(&empty, 3), "");
}

#[test]
fn service_caches_the_provider() {
    let config = AppConfig::default_config();
    let mut service = PriceService::new(MockProvider::new(UsageType::Charging), &config);
    let region = Region::jiangsu_wuxi();
    let date = CalendarDate::new(2024, 12, 1).unwrap();
    let s = service.prices_for_date(&region, date).unwrap();
    assert_eq!(s.periods.len(), 5);
    assert!(s.periods.iter().all(|q| q.season == Season::Winter));
    let again = service.prices_for_date(&region, date).unwrap();
    assert_eq!(again.periods.len(), 5);
    assert!(service.today_prices(&region).is_ok());
    assert!(service.current_price(&region).is_ok());
    let advice = service.recommend(&region).unwrap();
    assert!(advice.contains("今日最低电价: 低谷 00:00-07:00 ¥0.3783/kWh"));
    service.clear_cache();
    assert_eq!(service.provider().usage_type, UsageType::Charging);
}

#[test]
fn region_resolution() {
    let config = AppConfig::default_config();
    let r = resolve_region(Some("Zhejiang"), Some("HangZhou"), &config);
    assert_eq!((r.province.as_str(), r.city.as_str()), ("zhejiang", "hangzhou"));
    let r = resolve_region(Some("beijing"), None, &config);
    assert_eq!((r.province.as_str(), r.city.as_str()), ("beijing", "wuxi"));
    let r = resolve_region(None, Some("nanjing"), &config);
    assert_eq!((r.province.as_str(), r.city.as_str()), ("jiangsu", "nanjing"));
    let r = resolve_region(None, None, &config);
    assert_eq!(r, Region::jiangsu_wuxi());
}

#[test]
fn region_change() {
    let (c, r) = apply_region(AppConfig::default_config(), "Guangdong/Shenzhen").unwrap();
    assert_eq!(c.region.province, "guangdong");
    assert_eq!(c.region.city, "shenzhen");
    assert_eq!(c.cache.ttl, 3600);
    assert_eq!(region_set_report(&r), "地区已设置为: 广东 深圳");
    match apply_region(AppConfig::default_config(), "guangdong") {
        Err(AppError::Config(m)) => assert_eq!(m, "地区格式错误: guangdong (应为 province/city)"),
        other => panic!("unexpected {:?}", other.map(|x| x.1)),
    }
}

#[test]
fn reports() {
    let rule = "-".repeat(40);
    let now = TimeOfDay::from_hms(9, 0, 0).unwrap();
    assert_eq!(
        current_report(UsageType::Residential, &Region::jiangsu_wuxi(), &mock_schedule(), now),
        format!("居民用电 江苏 无锡 当前电价:\n{rule}\n  当前时段: 高峰 (08:00-21:00)\n  电价: ¥0.5583/kWh\n{rule}\n")
    );
    assert_eq!(
        config_report(&Region::jiangsu_wuxi(), UsageType::Charging, &AppConfig::default_config()),
        format!("当前配置:\n{rule}\n  地区: 江苏 无锡\n  用电类型: 充电桩\n  API: https://www.95598.cn\n  缓存TTL: 3600秒\n  高峰电价: ¥0.5600/kWh\n  低谷电价: ¥0.3500/kWh\n{rule}\n")
    );
    assert_eq!(recommend_report("x"), format!("用电建议:\n{rule}\nx\n{rule}\n"));
}

#[test]
fn default_configuration() {
    let c = AppConfig::default_config();
    assert_eq!(c.region.province, "jiangsu");
    assert_eq!(c.region.city, "wuxi");
    assert_eq!(c.api.base_url, "https://www.95598.cn");
    assert_eq!(c.api.timeout, 10);
    assert_eq!(c.cache.ttl, 3600);
    assert_eq!(c.pricing.default.peak_price, 5600);
    assert_eq!(c.pricing.default.flat_price, 5600);
    assert_eq!(c.pricing.default.valley_price, 3500);
    assert_eq!(c.pricing.schedule.peak_hours, vec![vec![8, 11], vec![17, 21]]);
    assert_eq!(c.pricing.schedule.valley_hours, vec![vec![22, 6]]);
}
