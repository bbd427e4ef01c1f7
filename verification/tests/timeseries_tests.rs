use stocker_core::fundamentals_timeseries::{
    balance_keys, build_type_param, cashflow_keys, check_timeseries_answer, decamel_field,
    financials_keys, fmt_date, income_extra_keys, merge_period_maps, normalize_epoch_secs,
    parse_as_of_date_ts, parse_timeseries_response, period_start_secs, sort_periods_by_end,
    timeseries_url, PeriodSnap,
};

fn period(periods: &[PeriodSnap], ts: i64) -> Option<&PeriodSnap> {
    periods.iter().find(|p| p.end_secs == ts)
}

fn value(p: &PeriodSnap, field: &str) -> Option<f64> {
    p.vals.iter().find(|(f, _)| f == field).map(|(_, raw)| raw.parse::<f64>().unwrap())
}

#[test]
fn type_param_lists_prefixed_keys() {
    assert_eq!(
        build_type_param("quarterly", &["NetIncome", "TotalRevenue"]),
        "quarterly,quarterlyNetIncome,quarterlyTotalRevenue"
    );
    assert_eq!(build_type_param("annual", &[]), "annual");
}

#[test]
fn epoch_milliseconds_become_seconds() {
    assert_eq!(normalize_epoch_secs(1_719_705_600_000), 1_719_705_600);
    assert_eq!(normalize_epoch_secs(1_719_705_600), 1_719_705_600);
    assert_eq!(normalize_epoch_secs(10_000_000_000), 10_000_000_000);
    assert_eq!(normalize_epoch_secs(-20_000_000_123), -20_000_000);
}

#[test]
fn field_names_drop_period_prefix() {
    assert_eq!(decamel_field("quarterlyNetIncome", "quarterly"), "netIncome");
    assert_eq!(decamel_field("annualEBIT", "annual"), "ebit");
    assert_eq!(decamel_field("trailingPE", "quarterly"), "pe");
    assert_eq!(decamel_field("quarterly", "quarterly"), "quarterly");
    assert_eq!(decamel_field("annualX", "annual"), "x");
    assert_eq!(decamel_field("somethingElse", "annual"), "somethingElse");
}

#[test]
fn as_of_date_beats_stale_timestamp_array() {
    let json = r#"{"timeseries":{"result":[{"timestamp":[1719705600],"quarterlyNetIncome":[{"asOfDate":"2026-06-30","reportedValue":{"raw":162579100000.0}}]}]}}"#;
    let map = parse_timeseries_response(json, "quarterly");
    let ts = parse_as_of_date_ts("2026-06-30").unwrap();
    assert!(period(&map, ts).is_some());
    assert!((value(period(&map, ts).unwrap(), "netIncome").unwrap() - 162579100000.0).abs() < 1.0);
    assert!(period(&map, 1719705600).is_none());
}

#[test]
fn quarterly_parse_skips_12m_annual_points() {
    let json = r#"{"timeseries":{"result":[{"timestamp":[1,2],"quarterlyNetIncome":[
        {"asOfDate":"2026-03-31","periodType":"12M","reportedValue":{"raw":700e9}},
        {"asOfDate":"2026-06-30","periodType":"3M","reportedValue":{"raw":181e9}}]}]}}"#;
    let map = parse_timeseries_response(json, "quarterly");
    assert!(period(&map, parse_as_of_date_ts("2026-03-31").unwrap()).is_none());
    let q = period(&map, parse_as_of_date_ts("2026-06-30").unwrap()).unwrap();
    assert_eq!(q.period_type, "3M");
    assert!((value(q, "netIncome").unwrap() - 181e9).abs() < 1.0);
}

#[test]
fn as_of_dates_are_midnight_utc_seconds() {
    assert_eq!(parse_as_of_date_ts("2026-06-30"), Some(1_782_777_600));
    assert_eq!(parse_as_of_date_ts(" 1970-01-01 "), Some(0));
    assert_eq!(parse_as_of_date_ts("1969-12-31"), Some(-86_400));
    assert_eq!(parse_as_of_date_ts("2026-02-30"), None);
    assert_eq!(parse_as_of_date_ts("30/06/2026"), None);
}

#[test]
fn annual_points_use_timestamps_and_are_twelve_months() {
    let json = r#"{"timeseries":{"result":[
        {"meta":{"symbol":["X"]},"timestamp":[1711843200000,1743379200],
         "annualTotalRevenue":[{"reportedValue":{"raw":100}},{"reportedValue":{"raw":120.5}}]},
        {"meta":{},"timestamp":[1743379200],"annualNetIncome":[{"reportedValue":{"raw":-7}}]},
        {"timestamp":[1743379200],"annualEBIT":[{"periodType":"12M"}]}]}}"#;
    let map = parse_timeseries_response(json, "annual");
    assert_eq!(map.len(), 2);
    assert_eq!(map[0].end_secs, 1_711_843_200);
    assert_eq!(map[0].period_type, "12M");
    assert_eq!(map[0].vals, vec![("totalRevenue".to_string(), "100".to_string())]);
    assert_eq!(map[1].end_secs, 1_743_379_200);
    assert_eq!(
        map[1].vals,
        vec![
            ("totalRevenue".to_string(), "120.5".to_string()),
            ("netIncome".to_string(), "-7".to_string()),
        ]
    );
}

#[test]
fn unusable_answers_give_no_periods() {
    assert!(parse_timeseries_response("not json", "annual").is_empty());
    assert!(parse_timeseries_response(r#"{"timeseries":{"result":null}}"#, "annual").is_empty());
    // A result without a timestamp array, or whose only keys are meta and timestamp.
    let json = r#"{"timeseries":{"result":[{"annualX":[{"reportedValue":{"raw":1}}]},{"meta":{},"timestamp":[1]}]}}"#;
    assert!(parse_timeseries_response(json, "annual").is_empty());
    // A timestamp beyond the series, or an item whose value is not a number.
    let json = r#"{"timeseries":{"result":[{"timestamp":[5,6],"annualX":[{"reportedValue":{"raw":"1"}}]}]}}"#;
    assert!(parse_timeseries_response(json, "annual").is_empty());
}

#[test]
fn trailing_items_are_skipped_in_quarterly_answers_only() {
    let json = r#"{"timeseries":{"result":[{"timestamp":[100],"quarterlyNetIncome":[{"periodType":"ttm","reportedValue":{"raw":5}}]}]}}"#;
    assert!(parse_timeseries_response(json, "quarterly").is_empty());
    let kept = parse_timeseries_response(json, "trailing");
    assert_eq!(kept.len(), 1);
    assert_eq!(kept[0].end_secs, 100);
    assert_eq!(kept[0].period_type, "12M");
    assert_eq!(kept[0].vals, vec![("quarterlyNetIncome".to_string(), "5".to_string())]);
}

fn snap(ts: i64, vals: &[(&str, &str)], period_type: &str) -> PeriodSnap {
    PeriodSnap {
        end_secs: ts,
        vals: vals.iter().map(|(f, v)| (f.to_string(), v.to_string())).collect(),
        period_type: period_type.to_string(),
    }
}

#[test]
fn merged_answers_join_fields_and_prefer_quarter_types() {
    let mut target = vec![snap(1, &[("netIncome", "10"), ("totalRevenue", "50")], "12M"), snap(2, &[], "")];
    merge_period_maps(
        &mut target,
        vec![
            snap(1, &[("totalRevenue", "55"), ("ebit", "8")], "3M"),
            snap(2, &[("ebit", "1")], "6M"),
            snap(3, &[("cash", "4")], ""),
        ],
    );
    assert_eq!(target.len(), 3);
    assert_eq!(target[0].period_type, "3M");
    assert_eq!(
        target[0].vals,
        vec![
            ("netIncome".to_string(), "10".to_string()),
            ("totalRevenue".to_string(), "55".to_string()),
            ("ebit".to_string(), "8".to_string()),
        ]
    );
    assert_eq!(target[1].period_type, "6M");
    assert_eq!(target[2].end_secs, 3);
    assert_eq!(target[2].period_type, "");
    let mut kept = vec![snap(1, &[], "12M")];
    merge_period_maps(&mut kept, vec![snap(1, &[], "6M")]);
    assert_eq!(kept[0].period_type, "12M");
}

#[test]
fn timeseries_url_encodes_symbol_and_series() {
    assert_eq!(
        timeseries_url("RELIANCE.NS", "annual,annualTotalRevenue", 100, 200),
        "https://query1.finance.yahoo.com/ws/fundamentals-timeseries/v1/finance/timeseries/RELIANCE.NS?symbol=RELIANCE.NS&period1=100&period2=200&type=annual%2CannualTotalRevenue"
    );
    assert!(timeseries_url("M&M.NS", "q", -5, 0).contains("/timeseries/M%26M.NS?symbol=M%26M.NS&period1=-5&period2=0&type=q"));
}

#[test]
fn timeseries_answers_are_checked() {
    assert_eq!(
        check_timeseries_answer("<html>"),
        Err("Yahoo fundamentalsTimeSeries answer is not JSON".to_string())
    );
    assert_eq!(
        check_timeseries_answer(r#"{"timeseries":{"result":null,"error":{"code":"x","description":"Invalid type"}}}"#),
        Err("Yahoo fundamentalsTimeSeries error: Invalid type".to_string())
    );
    assert_eq!(check_timeseries_answer(r#"{"timeseries":{"result":[],"error":null}}"#), Ok(()));
}

#[test]
fn request_window_and_series_lists() {
    assert_eq!(period_start_secs(1_000_000_000, 12), 621_568_000);
    assert_eq!(period_start_secs(0, -1), 31_536_000);
    assert_eq!(financials_keys().len(), 14);
    assert_eq!(financials_keys()[0], "TotalRevenue");
    assert_eq!(balance_keys().len(), 21);
    assert_eq!(balance_keys()[20], "TotalDeposits");
    assert_eq!(income_extra_keys(), vec!["OtherIncomeExpense", "NetInterestIncome", "InterestIncome"]);
    assert_eq!(cashflow_keys()[3], "FreeCashFlow");
}

#[test]
fn period_ends_print_as_utc_dates() {
    assert_eq!(fmt_date(1_782_777_600), "2026-06-30");
    assert_eq!(fmt_date(1_711_843_200_000), "2024-03-31");
    assert_eq!(fmt_date(-86_400), "1969-12-31");
    assert_eq!(fmt_date(86_399), "1970-01-01");
    assert_eq!(fmt_date(i64::MAX), "9223372036854775807");
}

#[test]
fn fractional_timestamps_are_cut_to_seconds() {
    let json = r#"{"timeseries":{"result":[{"timestamp":[1743379200.9,1.7e12],"annualEBIT":[{"reportedValue":{"raw":3}},{"reportedValue":{"raw":4}}]}]}}"#;
    let map = parse_timeseries_response(json, "annual");
    assert_eq!(map.len(), 2);
    assert_eq!(map[0].end_secs, 1_743_379_200);
    assert_eq!(map[0].vals, vec![("ebit".to_string(), "3".to_string())]);
    assert_eq!(map[1].end_secs, 1_700_000_000);
}

#[test]
fn periods_sort_oldest_first() {
    let sorted = sort_periods_by_end(vec![
        snap(30, &[("a", "1")], "3M"),
        snap(10, &[], ""),
        snap(20, &[("b", "2")], "12M"),
        snap(10, &[("c", "3")], "3M"),
    ]);
    let ends: Vec<i64> = sorted.iter().map(|p| p.end_secs).collect();
    assert_eq!(ends, vec![10, 10, 20, 30]);
    assert_eq!(sorted[2].vals, vec![("b".to_string(), "2".to_string())]);
    assert_eq!(sorted[3].period_type, "3M");
    assert!(sort_periods_by_end(vec![]).is_empty());
}
