use stocker_core::statements::{
    annual_asc, annual_desc, latest_fiscal_year_end, latest_period_end_fmt, parse_period_end_date,
    sort_owned_desc,
};

#[derive(Debug, PartialEq)]
struct Row {
    name: &'static str,
    end_ts: Option<i64>,
}

fn rows() -> Vec<Row> {
    vec![
        Row { name: "fy24", end_ts: Some(1_711_843_200) },
        Row { name: "fy22", end_ts: Some(1_648_684_800) },
        Row { name: "fy25", end_ts: Some(1_743_379_200) },
        Row { name: "fy23", end_ts: Some(1_680_220_800) },
    ]
}

#[test]
fn ascending_and_descending_orders() {
    let r = rows();
    let asc: Vec<&str> = annual_asc(&r, |x: &Row| x.end_ts).into_iter().map(|x| x.name).collect();
    assert_eq!(asc, vec!["fy22", "fy23", "fy24", "fy25"]);
    let desc: Vec<&str> = annual_desc(&r, |x: &Row| x.end_ts).into_iter().map(|x| x.name).collect();
    let mut reversed = asc.clone();
    reversed.reverse();
    assert_eq!(desc, reversed);
}

#[test]
fn missing_timestamps_sort_as_zero_and_ties_keep_order() {
    let r = vec![
        Row { name: "a", end_ts: Some(5) },
        Row { name: "b", end_ts: None },
        Row { name: "c", end_ts: Some(5) },
        Row { name: "d", end_ts: Some(0) },
    ];
    let asc: Vec<&str> = annual_asc(&r, |x: &Row| x.end_ts).into_iter().map(|x| x.name).collect();
    assert_eq!(asc, vec!["b", "d", "a", "c"]);
    let desc: Vec<&str> = annual_desc(&r, |x: &Row| x.end_ts).into_iter().map(|x| x.name).collect();
    assert_eq!(desc, vec!["a", "c", "b", "d"]);
    let owned: Vec<&str> = sort_owned_desc(r, |x: &Row| x.end_ts).into_iter().map(|x| x.name).collect();
    assert_eq!(owned, vec!["a", "c", "b", "d"]);
}

#[test]
fn period_end_dates_in_three_formats() {
    assert_eq!(parse_period_end_date(" 2026-03-31 "), Some((2026, 3, 31)));
    assert_eq!(parse_period_end_date("06/30/2025"), Some((2025, 6, 30)));
    assert_eq!(parse_period_end_date("31-12-2024"), Some((2024, 12, 31)));
    assert_eq!(parse_period_end_date(""), None);
    assert_eq!(parse_period_end_date("2025-02-30"), None);
}

#[test]
fn latest_period_end_by_calendar_date() {
    assert_eq!(
        latest_period_end_fmt(&["2025-03-31", "junk", "06/30/2025", "2024-12-31"]).as_deref(),
        Some("06/30/2025")
    );
    assert_eq!(latest_period_end_fmt(&["2025-03-31", "31-03-2025"]).as_deref(), Some("31-03-2025"));
    assert_eq!(latest_period_end_fmt(&["junk"]), None);
    assert_eq!(latest_period_end_fmt(&[]), None);
}

#[test]
fn fiscal_year_end_across_statements() {
    assert_eq!(
        latest_fiscal_year_end(&["2025-03-31"], &["2026-03-31"], &["03/31/2024"]).as_deref(),
        Some("2026-03-31")
    );
    assert_eq!(
        latest_fiscal_year_end(&["2026-03-31"], &[], &["31-03-2026"]).as_deref(),
        Some("31-03-2026")
    );
    assert_eq!(latest_fiscal_year_end(&[], &[], &[]), None);
}

#[test]
fn stable_sorts_of_rows_by_end() {
    let rows: Vec<Option<i64>> = vec![Some(5), None, Some(-1)];
    let asc: Vec<Option<i64>> = annual_asc(&rows, |x: &Option<i64>| *x).into_iter().copied().collect();
    assert_eq!(asc, vec![Some(-1), None, Some(5)]);
    let rows: Vec<Option<i64>> = vec![None, Some(5), Some(0)];
    let desc: Vec<Option<i64>> = annual_desc(&rows, |x: &Option<i64>| *x).into_iter().copied().collect();
    assert_eq!(desc, vec![Some(5), None, Some(0)]);
    assert_eq!(sort_owned_desc(rows, |x: &Option<i64>| *x), vec![Some(5), None, Some(0)]);
}
