use stocker_core::financial_company::curated_direct_peers;
use stocker_core::http_policy::assert_yahoo_finance_url;
use stocker_core::models::FinancialCompanyType;
use stocker_core::screener_in::parse_section;
use stocker_core::financial_company::classify_financial_company;
use stocker_core::models::AssetProfile;
use stocker_core::statements::{annual_desc, sort_owned_desc};
use stocker_core::symbol::{
    india_base_symbol, nse_csv_indices, normalize_nse_symbol, resolve_india_symbol,
    to_yahoo_bse_symbol, IndiaSymbolContext, NseCsvIndices,
};
use stocker_core::StockerError;

const ALL_TYPES: [FinancialCompanyType; 10] = [
    FinancialCompanyType::Industrial,
    FinancialCompanyType::Bank,
    FinancialCompanyType::Nbfc,
    FinancialCompanyType::NbfcProjectFinance,
    FinancialCompanyType::HousingFinance,
    FinancialCompanyType::Insurance,
    FinancialCompanyType::Amc,
    FinancialCompanyType::Broker,
    FinancialCompanyType::Exchange,
    FinancialCompanyType::Payments,
];

#[test]
fn every_resolution_has_an_exchange_suffix() {
    let ctx = IndiaSymbolContext::from_nse_bases(vec!["INFY".to_string()]);
    for input in ["infy", "INFY.BO", "tcs", "tcs.ns", " hdfcbank ", "M&M", "X.NS.BO"] {
        let t = resolve_india_symbol(input, &ctx).unwrap();
        assert!(t.ends_with(".NS") || t.ends_with(".BO"), "{t}");
    }
    assert_eq!(resolve_india_symbol("infy.bo", &ctx).unwrap(), "INFY.NS");
}

#[test]
fn explicit_ns_resolves_like_normalize() {
    let ctx = IndiaSymbolContext::from_nse_bases(vec![]);
    for input in ["FOO.NS", " tcs.ns ", "a.ns"] {
        assert_eq!(resolve_india_symbol(input, &ctx).unwrap(), normalize_nse_symbol(input).unwrap());
    }
}

#[test]
fn names_with_spaces_never_resolve() {
    let ctx = IndiaSymbolContext::from_nse_bases(vec!["HDFC".to_string()]);
    assert!(resolve_india_symbol("HDFC BANK", &ctx).is_err());
    assert!(resolve_india_symbol("  HDFC\tBANK ", &ctx).is_err());
}

#[test]
fn only_yahoo_urls_pass_policy() {
    assert!(assert_yahoo_finance_url("https://WWW.NSEINDIA.com/yahoo.com").is_err());
    assert!(assert_yahoo_finance_url("https://query1.finance.YAHOO.COM/x").is_ok());
    assert!(assert_yahoo_finance_url("https://example.org/").is_err());
}

#[test]
fn lenders_are_banks_or_nbfcs() {
    for t in ALL_TYPES {
        assert_eq!(t.is_lender(), t.is_bank() || t.is_nbfc_family());
        if t.is_lender() {
            assert!(t.is_financial());
        }
    }
}

#[test]
fn curated_peers_never_list_subject() {
    for (sym, t) in [
        ("PFC.NS", FinancialCompanyType::NbfcProjectFinance),
        ("hudco", FinancialCompanyType::NbfcProjectFinance),
        ("SBIN.NS", FinancialCompanyType::Bank),
        ("BAJFINANCE.BO", FinancialCompanyType::Nbfc),
    ] {
        let peers = curated_direct_peers(sym, t);
        let base = sym.trim().to_uppercase().trim_end_matches(".NS").trim_end_matches(".BO").to_string();
        assert!(peers.iter().all(|p| !p.starts_with(&format!("{base}."))), "{sym}: {peers:?}");
    }
    assert_eq!(curated_direct_peers("PFC.NS", FinancialCompanyType::NbfcProjectFinance).len(), 3);
}

#[test]
fn parsed_rows_have_one_value_per_date() {
    let html = r#"<section id="q"><table class="data-table"><tr><th data-date-key="d1">1</th><th data-date-key="d2">2</th><th data-date-key="d3">3</th></tr>
<tr><td class="text">A</td><td>1</td></tr>
<tr><td class="text">B</td><td>1</td><td>2</td><td>3</td><td>4</td></tr></table></section>"#;
    let t = parse_section(html, "q", "s");
    assert_eq!(t.period_dates.len(), 3);
    assert!(t.rows.iter().all(|r| r.values.len() == 3));
}

#[test]
fn ascii_resolution_as_documented() {
    let ctx = IndiaSymbolContext::from_nse_bases(vec!["RELIANCE".to_string()]);
    assert_eq!(resolve_india_symbol("  reliance ", &ctx).unwrap(), "RELIANCE.NS");
    assert_eq!(resolve_india_symbol("reliance.bo", &ctx).unwrap(), "RELIANCE.NS");
    assert_eq!(resolve_india_symbol("tcs.ns", &ctx).unwrap(), "TCS.NS");
    assert_eq!(resolve_india_symbol("abc", &ctx).unwrap(), "ABC.BO");
    assert!(resolve_india_symbol(".NS", &ctx).is_err());
    assert!(resolve_india_symbol("a b", &ctx).is_err());
}

#[test]
fn ascii_bse_symbol_is_idempotent() {
    for id in [" 500325 ", "abc.BO", "abc.bo", "Tata Steel", ""] {
        let once = to_yahoo_bse_symbol(id);
        assert_eq!(to_yahoo_bse_symbol(&once), once, "{id}");
    }
    assert_eq!(to_yahoo_bse_symbol(" 500325 "), "500325.BO");
    assert_eq!(to_yahoo_bse_symbol("abc.BO"), "ABC.BO");
}

#[test]
fn resolution_as_documented_for_any_input() {
    let ctx = IndiaSymbolContext::from_nse_bases(vec!["RELIANCE".to_string()]);
    assert_eq!(resolve_india_symbol(" reliance.bo ", &ctx).unwrap(), "RELIANCE.NS");
    assert_eq!(resolve_india_symbol("tcs", &ctx).unwrap(), "TCS.BO");
    assert_eq!(resolve_india_symbol("tcs.ns", &ctx).unwrap(), "TCS.NS");
    assert!(matches!(resolve_india_symbol("TATA STEEL", &ctx), Err(StockerError::InvalidSymbol(m)) if m == "TATA STEEL"));
    assert!(matches!(resolve_india_symbol(" .BO ", &ctx), Err(StockerError::InvalidSymbol(m)) if m == ".BO"));
}

#[test]
fn base_symbol_examples() {
    assert_eq!(india_base_symbol(" reliance.ns ").unwrap(), "RELIANCE");
    assert!(matches!(india_base_symbol(".BO"), Err(StockerError::InvalidSymbol(m)) if m == ".BO"));
    assert!(matches!(india_base_symbol(""), Err(StockerError::InvalidSymbol(m)) if m.is_empty()));
}

#[test]
fn nse_header_positions() {
    let h: Vec<String> = ["SYMBOL", "NAME OF COMPANY", "SERIES"].iter().map(|s| s.to_string()).collect();
    assert_eq!(
        nse_csv_indices(&h),
        NseCsvIndices { symbol_col: Some(0), series_col: Some(2), simple_col: false }
    );
    let one: Vec<String> = vec!["CODE".to_string()];
    assert_eq!(nse_csv_indices(&one), NseCsvIndices { symbol_col: None, series_col: None, simple_col: true });
}

#[test]
fn nse_listing_upper_cases_the_query_only() {
    let upper = IndiaSymbolContext::from_nse_bases(vec!["RELIANCE".to_string()]);
    assert!(upper.is_nse_listed("reliance"));
    let lower = IndiaSymbolContext::from_nse_bases(vec!["reliance".to_string()]);
    assert!(!lower.is_nse_listed("reliance"));
}

#[test]
fn ticker_alone_never_makes_a_company_financial() {
    let energy = AssetProfile { sector: Some("Energy".into()), industry: Some("Oil & Gas".into()), ..Default::default() };
    assert_eq!(classify_financial_company("SBIN.NS", &energy), FinancialCompanyType::Industrial);
    assert_eq!(classify_financial_company("MCX.NS", &energy), FinancialCompanyType::Industrial);
    let bank = AssetProfile { sector: Some("Financial Services".into()), industry: Some("Banks - Regional".into()), ..Default::default() };
    assert_eq!(classify_financial_company("SBIN.NS", &bank), FinancialCompanyType::Bank);
}

#[test]
fn refused_urls_quote_the_url_and_passing_ones_name_yahoo() {
    let url = "https://query1.finance.yahoo.com/v8/finance/chart/X?from=nseindia";
    match assert_yahoo_finance_url(url) {
        Err(StockerError::ForbiddenDataSource(m)) => assert!(m.ends_with(url)),
        other => panic!("expected a refusal, got {other:?}"),
    }
    assert!(assert_yahoo_finance_url("https://QUERY2.Finance.Yahoo.com/v7/x").is_ok());
    assert!(assert_yahoo_finance_url("https://yahoo.com.evil.example/x").is_err());
}

#[test]
fn owned_sort_matches_sort_by_reference() {
    let rows = vec![Some(3), None, Some(7), Some(3), Some(-2)];
    let by_ref: Vec<Option<i64>> = annual_desc(&rows, |x: &Option<i64>| *x).into_iter().copied().collect();
    assert_eq!(by_ref, vec![Some(7), Some(3), Some(3), None, Some(-2)]);
    assert_eq!(sort_owned_desc(rows, |x: &Option<i64>| *x), by_ref);
}
