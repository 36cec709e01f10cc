use peak_valley_price::date::{CalendarDate, TimeOfDay};
use peak_valley_price::models::price::{DailyPriceSchedule, PricePeriod, PriceTier, Season};
use peak_valley_price::models::price_type::UsageType;
use peak_valley_price::models::region::Region;
use peak_valley_price::text::push_price2;

fn period(tier: PriceTier, start: u8, end: u8, price: u32) -> PricePeriod {
    PricePeriod { tier, start_hour: start, end_hour: end, price, season: Season::Winter }
}

fn schedule(periods: Vec<PricePeriod>) -> DailyPriceSchedule {
    DailyPriceSchedule {
        date: CalendarDate::new(2024, 1, 15).unwrap(),
        region: Region::jiangsu_wuxi(),
        periods,
    }
}

#[test]
fn season_of_each_month() {
    let want = [
        Season::Winter, Season::Autumn, Season::Spring, Season::Spring, Season::Spring, Season::Autumn,
        Season::Summer, Season::Summer, Season::Autumn, Season::Autumn, Season::Autumn, Season::Winter,
    ];
    for (i, w) in want.iter().enumerate() {
        assert_eq!(Season::from_month(i as u32 + 1), *w);
    }
    assert_eq!(Season::from_month(0), Season::Autumn);
    assert_eq!(Season::from_month(13), Season::Autumn);
}

#[test]
fn labels() {
    assert_eq!(PriceTier::Peak.label(), "高峰");
    assert_eq!(PriceTier::Flat.label(), "平段");
    assert_eq!(PriceTier::Valley.label(), "低谷");
    assert_eq!(Season::Summer.label(), "夏季");
    assert_eq!(Season::Autumn.label(), "秋季");
    assert_eq!(UsageType::Residential.label(), "居民用电");
    assert_eq!(UsageType::Charging.label(), "充电桩");
}

#[test]
fn usage_type_parse() {
    assert_eq!("Residential".parse::<UsageType>().unwrap(), UsageType::Residential);
    assert_eq!("居民".parse::<UsageType>().unwrap(), UsageType::Residential);
    assert_eq!("jumin".parse::<UsageType>().unwrap(), UsageType::Residential);
    assert_eq!("CHARGING".parse::<UsageType>().unwrap(), UsageType::Charging);
    assert_eq!("充电".parse::<UsageType>().unwrap(), UsageType::Charging);
    assert_eq!("chongdian".parse::<UsageType>().unwrap(), UsageType::Charging);
    assert_eq!(
        "solar".parse::<UsageType>().unwrap_err(),
        "未知的用电类型: solar (可选: residential/charging)"
    );
}

#[test]
fn contains_hour_plain_and_wrapping() {
    let p = period(PriceTier::Peak, 8, 11, 5600);
    assert!(!p.contains_hour(7));
    assert!(p.contains_hour(8));
    assert!(p.contains_hour(10));
    assert!(!p.contains_hour(11));
    let w = period(PriceTier::Valley, 22, 6, 3500);
    assert!(w.contains_hour(22));
    assert!(w.contains_hour(23));
    assert!(w.contains_hour(0));
    assert!(w.contains_hour(5));
    assert!(!w.contains_hour(6));
    assert!(!w.contains_hour(12));
}

#[test]
fn duration_plain_and_wrapping() {
    assert_eq!(period(PriceTier::Peak, 8, 11, 1).duration_hours(), 3);
    assert_eq!(period(PriceTier::Valley, 22, 6, 1).duration_hours(), 8);
    assert_eq!(period(PriceTier::Flat, 5, 5, 1).duration_hours(), 24);
}

#[test]
fn duration_matches_covered_hours() {
    for (s, e) in [(8u8, 11u8), (22, 6), (0, 24), (13, 13), (21, 24)] {
        let p = period(PriceTier::Flat, s, e, 1);
        let covered = (0..24u8).filter(|h| p.contains_hour(*h)).count();
        assert_eq!(covered, p.duration_hours() as usize);
    }
}

#[test]
fn price_at_hour_takes_first_cover() {
    let s = schedule(vec![
        period(PriceTier::Valley, 0, 8, 3583),
        period(PriceTier::Peak, 8, 21, 5583),
        period(PriceTier::Flat, 7, 10, 4000),
    ]);
    assert_eq!(s.price_at_hour(7).unwrap().tier, PriceTier::Valley);
    assert_eq!(s.price_at_hour(8).unwrap().tier, PriceTier::Peak);
    assert!(s.price_at_hour(22).is_none());
    let now = TimeOfDay::from_hms(9, 30, 0).unwrap();
    assert_eq!(s.current_price(now).unwrap().price, 5583);
}

#[test]
fn cheapest_first_and_dearest_last_on_ties() {
    let s = schedule(vec![
        period(PriceTier::Valley, 0, 8, 3583),
        period(PriceTier::Peak, 8, 21, 5583),
        period(PriceTier::Valley, 21, 24, 3583),
        period(PriceTier::Peak, 1, 2, 5583),
    ]);
    let c = s.cheapest_period().unwrap();
    assert_eq!((c.start_hour, c.end_hour), (0, 8));
    let e = s.most_expensive_period().unwrap();
    assert_eq!((e.start_hour, e.end_hour), (1, 2));
    let empty = schedule(vec![]);
    assert!(empty.cheapest_period().is_none());
    assert!(empty.most_expensive_period().is_none());
}

#[test]
fn period_text_rounds_to_two_decimals() {
    assert_eq!(period(PriceTier::Peak, 8, 21, 5583).describe(), "高峰 08:00-21:00 ¥0.56/kWh");
    assert_eq!(period(PriceTier::Valley, 0, 8, 3583).describe(), "低谷 00:00-08:00 ¥0.36/kWh");
    assert_eq!(period(PriceTier::Flat, 5, 7, 3549).describe(), "平段 05:00-07:00 ¥0.35/kWh");
    assert_eq!(period(PriceTier::Flat, 5, 7, 123456).describe(), "平段 05:00-07:00 ¥12.35/kWh");
}

#[test]
fn period_text_rounds_ties_as_the_nearest_double() {
    // 0.355 is held as a double just below it; 0.125 and 0.375 are held exactly
    // and go to the even hundredth.
    assert_eq!(period(PriceTier::Flat, 5, 7, 3550).describe(), "平段 05:00-07:00 ¥0.35/kWh");
    assert_eq!(period(PriceTier::Flat, 5, 7, 1250).describe(), "平段 05:00-07:00 ¥0.12/kWh");
    assert_eq!(period(PriceTier::Flat, 5, 7, 3750).describe(), "平段 05:00-07:00 ¥0.38/kWh");
    assert_eq!(period(PriceTier::Flat, 5, 7, 6250).describe(), "平段 05:00-07:00 ¥0.62/kWh");
    assert_eq!(period(PriceTier::Flat, 5, 7, 50).describe(), "平段 05:00-07:00 ¥0.01/kWh");
}

fn two_decimals(p: u32) -> String {
    let mut s = String::new();
    push_price2(&mut s, p);
    s
}

#[test]
fn two_decimal_text_agrees_with_float_formatting() {
    let mut p: u32 = 0;
    while p <= 300_000 {
        assert_eq!(two_decimals(p), format!("{:.2}", p as f64 / 10000.0), "p = {}", p);
        p += 1;
    }
    let mut p: u64 = 50;
    while p <= u32::MAX as u64 {
        let q = p as u32;
        assert_eq!(two_decimals(q), format!("{:.2}", q as f64 / 10000.0), "p = {}", q);
        p += 9_973 * 100;
    }
    let mut p: u32 = u32::MAX - 100_000;
    loop {
        assert_eq!(two_decimals(p), format!("{:.2}", p as f64 / 10000.0), "p = {}", p);
        if p == u32::MAX {
            break;
        }
        p += 1;
    }
}

#[test]
fn schedule_text() {
    let s = schedule(vec![
        period(PriceTier::Valley, 0, 8, 3583),
        period(PriceTier::Peak, 8, 24, 5583),
    ]);
    let rule = "-".repeat(40);
    let want = format!(
        "📅 2024-01-15 江苏 无锡 电价表:\n{rule}\n  低谷 00:00-08:00 ¥0.36/kWh\n  高峰 08:00-24:00 ¥0.56/kWh\n{rule}\n💡 最便宜: 低谷 00:00-08:00 ¥0.3583/kWh\n"
    );
    assert_eq!(s.describe(), want);
    let empty = schedule(vec![]);
    assert_eq!(empty.describe(), format!("📅 2024-01-15 江苏 无锡 电价表:\n{rule}\n{rule}\n"));
}
