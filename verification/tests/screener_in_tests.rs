use stocker_core::screener_in::{
    parse_section, screener_financials_from_page, screener_page_urls, screener_page_usable,
};

const PFC_SNIPPET: &str = r#"
<section id="quarters" class="card">
<table class="data-table responsive-text-nowrap">
<thead><tr>
<th class="text"></th>
<th data-date-key="2023-03-31">Mar 2023</th>
<th data-date-key="2023-06-30">Jun 2023</th>
<th data-date-key="2023-09-30">Sep 2023</th>
</tr></thead>
<tbody>
<tr><td class="text">Revenue&nbsp;+</td><td>20,061</td><td>21,009</td><td>22,391</td></tr>
<tr><td class="text">Net Profit&nbsp;+</td><td>6,129</td><td>5,982</td><td>6,628</td></tr>
</tbody></table></section>
"#;

#[test]
fn parses_quarters_table() {
    let t = parse_section(PFC_SNIPPET, "quarters", "test");
    assert_eq!(t.period_dates.len(), 3);
    assert_eq!(t.period_dates[0], "2023-03-31");
    assert_eq!(t.rows.len(), 2);
    assert_eq!(t.rows[0].label, "Revenue");
    assert_eq!(t.rows[0].values[0], "20,061");
}

#[test]
fn missing_section_keeps_only_source() {
    let t = parse_section(PFC_SNIPPET, "balance-sheet", "src");
    assert!(t.period_dates.is_empty());
    assert!(t.rows.is_empty());
    assert_eq!(t.unit, "");
    assert_eq!(t.source, "src");
}

#[test]
fn rows_are_padded_and_percent_detected() {
    let html = r#"<div id="x"><table class="data-table"><tr><th data-date-key="a">A</th><th data-date-key="b">B</th></tr>
<tr><td class="text">OPM %</td><td>12%</td></tr>
<tr><td class="text"> <b>Tax</b>&#8377; </td><td><span>1</span></td><td>2</td><td>3</td></tr>
<tr><td class="text"></td><td>9</td></tr></table>"#;
    let t = parse_section(html, "x", "s");
    assert_eq!(t.unit, "Rs. Crores");
    assert_eq!(t.period_dates, vec!["a", "b"]);
    assert_eq!(t.rows.len(), 2);
    assert_eq!(t.rows[0].values, vec!["12%", "—"]);
    assert!(t.rows[0].is_pct);
    assert_eq!(t.rows[1].label, "Tax₹");
    assert_eq!(t.rows[1].values, vec!["1", "2"]);
    assert!(!t.rows[1].is_pct);
}

#[test]
fn company_pages_consolidated_first() {
    assert_eq!(
        screener_page_urls(" pfc "),
        vec![
            "https://www.screener.in/company/PFC/consolidated/".to_string(),
            "https://www.screener.in/company/PFC/".to_string(),
        ]
    );
    assert!(screener_page_urls("  ").is_empty());
    assert!(screener_page_usable(PFC_SNIPPET));
    assert!(!screener_page_usable("<html>login</html>"));
}

#[test]
fn four_tables_from_a_company_page() {
    let f = screener_financials_from_page("pfc", Some(PFC_SNIPPET));
    assert_eq!(f.quarterly.rows.len(), 2);
    assert_eq!(f.quarterly.source, "Screener.in /company/PFC/consolidated");
    assert!(f.profit_loss.rows.is_empty());
    assert_eq!(f.profit_loss.source, "Screener.in /company/PFC/consolidated");
    let empty = screener_financials_from_page("pfc", None);
    assert!(empty.quarterly.period_dates.is_empty());
    assert_eq!(empty.quarterly.source, "");
    let blank = screener_financials_from_page(" ", Some(PFC_SNIPPET));
    assert!(blank.quarterly.rows.is_empty());
}
