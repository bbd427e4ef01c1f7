use stocker_core::statements::{
    expected_reported_quarter_end, yahoo_quarter_freshness, CalendarDate,
};

fn date(y: i32, m: u32, d: u32) -> CalendarDate {
    CalendarDate::from_ymd(y, m, d).unwrap()
}

#[test]
fn yahoo_quarter_from_june_2025_is_stale_on_aug_2026() {
    let as_of = date(2026, 8, 30);
    let expected = expected_reported_quarter_end(as_of);
    assert_eq!(expected, date(2026, 6, 30));
    let f = yahoo_quarter_freshness(Some("2025-06-30"), as_of);
    assert!(f.stale);
    assert!(f.age_days.unwrap() > 350);
    assert!(f.note.contains("stale"));
    let fresh = yahoo_quarter_freshness(Some("2026-06-30"), as_of);
    assert!(!fresh.stale);
}

#[test]
fn calendar_dates_must_exist() {
    assert!(CalendarDate::from_ymd(2023, 2, 29).is_none());
    assert!(CalendarDate::from_ymd(2024, 2, 29).is_some());
    assert!(CalendarDate::from_ymd(2024, 13, 1).is_none());
    let d = date(2024, 2, 29);
    assert_eq!((d.year(), d.month(), d.day()), (2024, 2, 29));
}

#[test]
fn expected_quarter_end_respects_reporting_lag() {
    assert_eq!(expected_reported_quarter_end(date(2026, 7, 20)), date(2026, 3, 31));
    assert_eq!(expected_reported_quarter_end(date(2026, 7, 25)), date(2026, 6, 30));
    assert_eq!(expected_reported_quarter_end(date(2026, 1, 10)), date(2025, 9, 30));
    assert_eq!(expected_reported_quarter_end(date(2026, 1, 25)), date(2025, 12, 31));
}

#[test]
fn freshness_without_quarter_end_is_stale() {
    let as_of = date(2026, 8, 30);
    let f = yahoo_quarter_freshness(None, as_of);
    assert!(f.stale);
    assert_eq!(f.age_days, None);
    assert_eq!(f.expected_reported_quarter_end, "2026-06-30");
    assert_eq!(f.note, "Yahoo quarterly income series has no usable quarter-end.");
    let g = yahoo_quarter_freshness(Some("not a date"), as_of);
    assert!(g.stale);
    assert_eq!(g.age_days, None);
}

#[test]
fn stale_note_reports_dates_and_age() {
    let as_of = date(2026, 8, 30);
    let f = yahoo_quarter_freshness(Some("03/31/2026"), as_of);
    assert!(f.stale);
    assert_eq!(f.age_days, Some(152));
    assert_eq!(
        f.note,
        "Yahoo quarterly statement data appears stale relative to the company's latest published quarter. Yahoo latest quarter-end is 2026-03-31; a quarter ending 2026-06-30 should already be in filings (statement age 152 days)."
    );
    let fresh = yahoo_quarter_freshness(Some("30-06-2026"), as_of);
    assert_eq!(fresh.age_days, Some(61));
    assert_eq!(fresh.note, "");
}

#[test]
fn quarter_end_after_as_of_gives_negative_age() {
    let as_of = date(2026, 8, 30);
    let f = yahoo_quarter_freshness(Some("2026-09-30"), as_of);
    assert_eq!(f.age_days, Some(-31));
    assert!(!f.stale);
}

#[test]
fn calendar_dates_follow_the_gregorian_rules() {
    assert!(CalendarDate::from_ymd(2024, 2, 29).is_some());
    assert!(CalendarDate::from_ymd(2000, 2, 29).is_some());
    assert!(CalendarDate::from_ymd(1900, 2, 29).is_none());
    assert!(CalendarDate::from_ymd(-4, 2, 29).is_some());
    assert!(CalendarDate::from_ymd(2025, 4, 31).is_none());
    assert!(CalendarDate::from_ymd(2025, 13, 1).is_none());
    assert!(CalendarDate::from_ymd(2025, 1, 0).is_none());
    assert!(CalendarDate::from_ymd(262142, 12, 31).is_some());
    assert!(CalendarDate::from_ymd(262143, 1, 1).is_none());
    assert!(CalendarDate::from_ymd(-262143, 1, 1).is_some());
    assert!(CalendarDate::from_ymd(-262144, 12, 31).is_none());
}

#[test]
fn expected_quarter_end_is_written_with_four_digit_years() {
    let f = yahoo_quarter_freshness(None, date(999, 7, 25));
    assert_eq!(f.expected_reported_quarter_end, "0999-06-30");
}
