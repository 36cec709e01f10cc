use peak_valley_price::api::mock::MockProvider;
use peak_valley_price::api::sgcc::{PriceItem, SgccProvider};
use peak_valley_price::api::traits::PriceProvider;
use peak_valley_price::config::AppConfig;
use peak_valley_price::date::CalendarDate;
use peak_valley_price::error::AppError;
use peak_valley_price::models::price::{PricePeriod, PriceTier, Season};
use peak_valley_price::models::price_type::UsageType;
use peak_valley_price::models::region::Region;

fn spans(ps: &[PricePeriod]) -> Vec<(PriceTier, u8, u8, u32)> {
    ps.iter().map(|p| (p.tier, p.start_hour, p.end_hour, p.price)).collect()
}

fn item(t: &str, s: &str, e: &str, price: u32) -> PriceItem {
    PriceItem { time_type: t.to_string(), start_time: s.to_string(), end_time: e.to_string(), price }
}

#[test]
fn test_mock_provider() {
    let provider = MockProvider::new(UsageType::Residential);
    let region = Region::jiangsu_wuxi();
    let schedule = provider.today_prices(&region).unwrap();

    assert!(!schedule.periods.is_empty());
    assert!(schedule.periods.iter().any(|p| p.tier == PriceTier::Peak));
    assert!(schedule.periods.iter().any(|p| p.tier == PriceTier::Valley));
}

#[test]
fn mock_schedules_are_fixed() {
    let region = Region::jiangsu_wuxi();
    let date = CalendarDate::new(2024, 7, 1).unwrap();
    let r = MockProvider::default().prices_for_date(&region, date).unwrap();
    assert_eq!(
        spans(&r.periods),
        vec![(PriceTier::Valley, 0, 8, 3583), (PriceTier::Peak, 8, 21, 5583), (PriceTier::Valley, 21, 24, 3583)]
    );
    assert!(r.periods.iter().all(|p| p.season == Season::Summer));
    let c = MockProvider::new(UsageType::Charging).prices_for_date(&region, date).unwrap();
    assert_eq!(
        spans(&c.periods),
        vec![
            (PriceTier::Valley, 0, 7, 3783),
            (PriceTier::Peak, 7, 11, 5783),
            (PriceTier::Valley, 11, 13, 3783),
            (PriceTier::Peak, 13, 22, 5783),
            (PriceTier::Valley, 22, 24, 3783),
        ]
    );
    for h in 0..24u8 {
        assert_eq!(c.periods.iter().filter(|p| p.contains_hour(h)).count(), 1);
    }
    let m = MockProvider::default();
    assert_eq!(m.name(), "Mock (测试数据)");
    assert!(m.supports_region(&Region::new("hubei", "wuhan")));
}

#[test]
fn parse_hour_reads_the_number_before_the_colon() {
    assert_eq!(SgccProvider::parse_hour("08:00").unwrap(), 8);
    assert_eq!(SgccProvider::parse_hour("21").unwrap(), 21);
    assert_eq!(SgccProvider::parse_hour("+7:30").unwrap(), 7);
    assert_eq!(SgccProvider::parse_hour("255:00").unwrap(), 255);
    for bad in ["256:00", ":30", "", "-1:00", "+", "ab:cd", " 8:00", "８:00"] {
        match SgccProvider::parse_hour(bad) {
            Err(AppError::Parse(m)) => assert_eq!(m, format!("解析时间失败: {bad}")),
            other => panic!("unexpected {:?} for {:?}", other, bad),
        }
    }
}

#[test]
fn tier_names() {
    assert_eq!(SgccProvider::tier_of("peak"), PriceTier::Peak);
    assert_eq!(SgccProvider::tier_of("高"), PriceTier::Peak);
    assert_eq!(SgccProvider::tier_of("valley"), PriceTier::Valley);
    assert_eq!(SgccProvider::tier_of("低"), PriceTier::Valley);
    assert_eq!(SgccProvider::tier_of("flat"), PriceTier::Flat);
    assert_eq!(SgccProvider::tier_of("Peak"), PriceTier::Flat);
}

#[test]
fn interpret_response_outcomes() {
    let date = CalendarDate::new(2024, 4, 2).unwrap();
    match SgccProvider::interpret_response(500, "busy", None, &date) {
        Err(AppError::Api(m)) => assert_eq!(m, "API 错误: busy"),
        other => panic!("unexpected {:?}", other),
    }
    match SgccProvider::interpret_response(200, "ok", None, &date) {
        Err(AppError::Api(m)) => assert_eq!(m, "API 返回数据为空"),
        other => panic!("unexpected {:?}", other),
    }
    let items = vec![item("valley", "00:00", "08:00", 3583), item("高", "08:00", "21:00", 5583), item("x", "21:00", "24:00", 4000)];
    let ps = SgccProvider::interpret_response(200, "ok", Some(items), &date).unwrap();
    assert_eq!(
        spans(&ps),
        vec![(PriceTier::Valley, 0, 8, 3583), (PriceTier::Peak, 8, 21, 5583), (PriceTier::Flat, 21, 24, 4000)]
    );
    assert!(ps.iter().all(|p| p.season == Season::Spring));
    let bad = vec![item("peak", "08:00", "xx", 1), item("peak", "yy", "09:00", 1)];
    match SgccProvider::interpret_response(200, "ok", Some(bad), &date) {
        Err(AppError::Parse(m)) => assert_eq!(m, "解析时间失败: xx"),
        other => panic!("unexpected {:?}", other),
    }
}

#[test]
fn api_url() {
    let p = SgccProvider::new(AppConfig::default_config(), UsageType::Residential);
    let url = p.build_api_url(&Region::jiangsu_wuxi(), &CalendarDate::new(2024, 1, 15).unwrap());
    assert_eq!(url, "https://www.95598.cn/api/price/query?province=jiangsu&city=wuxi&date=2024-01-15");
    assert_eq!(p.name(), "国家电网 (SGCC)");
    assert!(p.supports_region(&Region::jiangsu_wuxi()));
    assert!(!p.supports_region(&Region::new("zhejiang", "hangzhou")));
}

#[test]
fn fallback_follows_the_local_tariff() {
    let p = SgccProvider::new(AppConfig::default_config(), UsageType::Residential);
    let date = CalendarDate::new(2024, 1, 15).unwrap();
    let s = p.build_fallback_schedule(&Region::jiangsu_wuxi(), &date);
    assert_eq!(
        spans(&s.periods),
        vec![
            (PriceTier::Valley, 0, 6, 3500),
            (PriceTier::Flat, 6, 8, 5600),
            (PriceTier::Peak, 8, 11, 5600),
            (PriceTier::Flat, 11, 17, 5600),
            (PriceTier::Peak, 17, 21, 5600),
            (PriceTier::Flat, 21, 22, 5600),
            (PriceTier::Valley, 22, 24, 3500),
        ]
    );
    assert!(s.periods.iter().all(|q| q.season == Season::Winter));
    assert_eq!(s.price_at_hour(9).unwrap().tier, PriceTier::Peak);
    assert_eq!(s.price_at_hour(23).unwrap().tier, PriceTier::Valley);
    assert_eq!(s.price_at_hour(12).unwrap().tier, PriceTier::Flat);
}

#[test]
fn fallback_peak_wins_and_runs_merge() {
    let mut config = AppConfig::default_config();
    config.pricing.schedule.peak_hours = vec![vec![20, 2]];
    config.pricing.schedule.valley_hours = vec![vec![0, 24], vec![1, 3]];
    let p = SgccProvider::new(config, UsageType::Charging);
    let s = p.build_fallback_schedule(&Region::jiangsu_wuxi(), &CalendarDate::new(2024, 8, 1).unwrap());
    assert_eq!(
        spans(&s.periods),
        vec![(PriceTier::Peak, 0, 2, 5600), (PriceTier::Valley, 2, 20, 3500), (PriceTier::Peak, 20, 24, 5600)]
    );
    assert!(p.config.pricing.schedule.is_well_formed());
    let mut broken = AppConfig::default_config();
    broken.pricing.schedule.peak_hours = vec![vec![8]];
    assert!(!broken.pricing.schedule.is_well_formed());
    broken.pricing.schedule.peak_hours = vec![vec![8, 25]];
    assert!(!broken.pricing.schedule.is_well_formed());
}

#[test]
fn fallback_passes_over_unusable_valley_ranges() {
    let mut config = AppConfig::default_config();
    config.pricing.schedule.valley_hours = vec![vec![22], vec![1, 30], vec![22, 6]];
    assert!(config.pricing.schedule.is_well_formed());
    let p = SgccProvider::new(config, UsageType::Residential);
    let s = p.build_fallback_schedule(&Region::jiangsu_wuxi(), &CalendarDate::new(2024, 1, 15).unwrap());
    assert_eq!(s.periods.len(), 7);
    assert_eq!(s.price_at_hour(3).unwrap().tier, PriceTier::Valley);
    assert_eq!(s.price_at_hour(7).unwrap().tier, PriceTier::Flat);
}

#[test]
fn fetch_outcome_or_fallback() {
    let p = SgccProvider::new(AppConfig::default_config(), UsageType::Residential);
    let region = Region::jiangsu_wuxi();
    let date = CalendarDate::new(2024, 1, 15).unwrap();
    let got = vec![PricePeriod { tier: PriceTier::Flat, start_hour: 0, end_hour: 24, price: 5000, season: Season::Winter }];
    let s = p.schedule_from_fetch(Ok(got), &region, &date).unwrap();
    assert_eq!(spans(&s.periods), vec![(PriceTier::Flat, 0, 24, 5000)]);
    let f = p.schedule_from_fetch(Err(AppError::Api("down".to_string())), &region, &date).unwrap();
    assert_eq!(f.periods.len(), 7);
    assert_eq!(f.date, date);
    assert_eq!(f.region, region);
}
