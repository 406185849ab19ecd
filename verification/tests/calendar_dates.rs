use homebank_convert::calendar::NaiveDate;

#[test]
fn days_of_the_calendar() {
    assert!(NaiveDate::from_ymd_opt(2024, 2, 29).is_some());
    assert!(NaiveDate::from_ymd_opt(2023, 2, 29).is_none());
    assert!(NaiveDate::from_ymd_opt(1900, 2, 29).is_none());
    assert!(NaiveDate::from_ymd_opt(2000, 2, 29).is_some());
    assert!(NaiveDate::from_ymd_opt(-4, 2, 29).is_some());
    assert!(NaiveDate::from_ymd_opt(-100, 2, 29).is_none());
    assert!(NaiveDate::from_ymd_opt(-400, 2, 29).is_some());
    assert!(NaiveDate::from_ymd_opt(2015, 3, 14).is_some());
    assert!(NaiveDate::from_ymd_opt(2015, 0, 14).is_none());
    assert!(NaiveDate::from_ymd_opt(2015, 13, 14).is_none());
    assert!(NaiveDate::from_ymd_opt(2015, 4, 0).is_none());
    assert!(NaiveDate::from_ymd_opt(2015, 4, 30).is_some());
    assert!(NaiveDate::from_ymd_opt(2015, 4, 31).is_none());
    assert!(NaiveDate::from_ymd_opt(2015, 12, 31).is_some());
    assert!(NaiveDate::from_ymd_opt(2015, 12, 32).is_none());
}

#[test]
fn range_of_years() {
    assert!(NaiveDate::from_ymd_opt(262142, 12, 31).is_some());
    assert!(NaiveDate::from_ymd_opt(262143, 1, 1).is_none());
    assert!(NaiveDate::from_ymd_opt(-262143, 1, 1).is_some());
    assert!(NaiveDate::from_ymd_opt(-262144, 12, 31).is_none());
    assert!(NaiveDate::from_ymd_opt(400000, 1, 1).is_none());
    assert!(NaiveDate::from_ymd_opt(-400000, 1, 1).is_none());
}

#[test]
fn parts_of_a_date() {
    let d = NaiveDate::from_ymd_opt(2024, 1, 5).unwrap();
    assert_eq!(d.year(), 2024);
    assert_eq!(d.month(), 1);
    assert_eq!(d.day(), 5);
}

#[test]
fn order_of_dates() {
    let date = |y, m, d| NaiveDate::from_ymd_opt(y, m, d).unwrap();
    let a = date(2024, 1, 31);
    let b = date(2024, 2, 1);
    assert!(a.on_or_before(&a));
    assert!(a.on_or_after(&a));
    assert!(a.on_or_before(&b));
    assert!(!b.on_or_before(&a));
    assert!(b.on_or_after(&a));
    assert!(!a.on_or_after(&b));
    assert!(date(2023, 12, 31).on_or_before(&date(2024, 1, 1)));
    assert!(!date(2024, 1, 1).on_or_before(&date(2023, 12, 31)));
    assert!(date(-1, 12, 31).on_or_before(&date(0, 1, 1)));
    assert!(date(2024, 3, 9).on_or_before(&date(2024, 3, 10)));
    assert!(!date(2024, 3, 10).on_or_before(&date(2024, 3, 9)));
}

#[test]
fn times_of_day() {
    let d = NaiveDate::from_ymd_opt(2024, 1, 5).unwrap();
    let t = d.and_hms_opt(23, 59, 59).unwrap();
    assert_eq!(t.date(), d);
    assert_eq!((t.hour(), t.minute(), t.second(), t.nanosecond()), (23, 59, 59, 0));
    assert!(d.and_hms_opt(0, 0, 0).is_some());
    assert!(d.and_hms_opt(24, 0, 0).is_none());
    assert!(d.and_hms_opt(0, 60, 0).is_none());
    assert!(d.and_hms_opt(0, 0, 60).is_none());
}
