use peak_valley_price::date::{CalendarDate, TimeOfDay};

#[test]
fn dates_that_exist() {
    assert!(CalendarDate::new(2024, 2, 29).is_some());
    assert!(CalendarDate::new(2023, 2, 29).is_none());
    assert!(CalendarDate::new(1900, 2, 29).is_none());
    assert!(CalendarDate::new(2000, 2, 29).is_some());
    assert!(CalendarDate::new(2024, 4, 31).is_none());
    assert!(CalendarDate::new(2024, 13, 1).is_none());
    assert!(CalendarDate::new(2024, 0, 1).is_none());
    assert!(CalendarDate::new(2024, 1, 0).is_none());
    assert!(CalendarDate::new(262142, 12, 31).is_some());
    assert!(CalendarDate::new(262143, 1, 1).is_none());
    assert!(CalendarDate::new(-262143, 1, 1).is_some());
    assert!(CalendarDate::new(-262144, 1, 1).is_none());
}

#[test]
fn date_text() {
    assert_eq!(CalendarDate::new(2024, 1, 15).unwrap().to_text(), "2024-01-15");
    assert_eq!(CalendarDate::new(0, 1, 1).unwrap().to_text(), "0000-01-01");
    assert_eq!(CalendarDate::new(-1, 1, 1).unwrap().to_text(), "-0001-01-01");
    assert_eq!(CalendarDate::new(10000, 12, 31).unwrap().to_text(), "+10000-12-31");
}

#[test]
fn date_parts() {
    let d = CalendarDate::new(2024, 7, 9).unwrap();
    assert_eq!((d.year(), d.month(), d.day()), (2024, 7, 9));
}

#[test]
fn times_of_day() {
    assert!(TimeOfDay::from_hms(23, 59, 59).is_some());
    assert!(TimeOfDay::from_hms(24, 0, 0).is_none());
    assert!(TimeOfDay::from_hms(0, 60, 0).is_none());
    assert!(TimeOfDay::from_hms(0, 0, 60).is_none());
    let now = TimeOfDay::now_local();
    assert!(now.hour < 24);
    let today = CalendarDate::today_local();
    assert!((1..=12).contains(&today.month()));
}
