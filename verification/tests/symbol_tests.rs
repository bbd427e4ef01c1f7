use stocker_core::symbol::{
    india_base_symbol, india_display_ticker, india_exchange_label, normalize_nse_symbol,
    resolve_india_symbol, to_yahoo_bse_symbol, IndiaSymbolContext,
};

fn ctx_with_nse(symbols: &[&str]) -> IndiaSymbolContext {
    IndiaSymbolContext::from_nse_bases(symbols.iter().map(|s| s.to_string()).collect())
}

#[test]
fn adds_ns_suffix() {
    assert_eq!(normalize_nse_symbol("RELIANCE").unwrap(), "RELIANCE.NS");
}

#[test]
fn preserves_existing_ns() {
    assert_eq!(normalize_nse_symbol("TCS.NS").unwrap(), "TCS.NS");
}

#[test]
fn resolve_rejects_fund_names_with_spaces() {
    let ctx = ctx_with_nse(&[]);
    assert!(resolve_india_symbol(
        "PARAG PARIKH FLEXI CAP FUND - DIRECT PLAN - GROWTH.BO",
        &ctx
    )
    .is_err());
    assert!(resolve_india_symbol("Parag Parikh Flexi Cap", &ctx).is_err());
}

#[test]
fn resolve_nse_listed_bare() {
    let ctx = ctx_with_nse(&["RELIANCE"]);
    assert_eq!(resolve_india_symbol("RELIANCE", &ctx).unwrap(), "RELIANCE.NS");
}

#[test]
fn resolve_nse_priority_over_bo_input() {
    let ctx = ctx_with_nse(&["RELIANCE"]);
    assert_eq!(resolve_india_symbol("RELIANCE.BO", &ctx).unwrap(), "RELIANCE.NS");
}

#[test]
fn resolve_bse_only() {
    let ctx = ctx_with_nse(&["RELIANCE"]);
    assert_eq!(resolve_india_symbol("SOMEBSE", &ctx).unwrap(), "SOMEBSE.BO");
}

#[test]
fn resolve_explicit_ns_preserved() {
    let ctx = ctx_with_nse(&[]);
    assert_eq!(resolve_india_symbol("FOO.NS", &ctx).unwrap(), "FOO.NS");
}

#[test]
fn display_ticker_strips_suffixes() {
    assert_eq!(india_display_ticker("RELIANCE.NS"), "RELIANCE");
    assert_eq!(india_display_ticker("SOMEBSE.BO"), "SOMEBSE");
}

#[test]
fn exchange_label_from_suffix_and_yahoo_codes() {
    assert_eq!(india_exchange_label("RELIANCE.NS", Some("NSI")), "NSE");
    assert_eq!(india_exchange_label("FOO.BO", Some("YHD")), "BSE");
    assert_eq!(india_exchange_label("FOO", Some("NSI")), "NSE");
    assert_eq!(india_exchange_label("FOO", Some("YHD")), "BSE");
}

#[test]
fn stored_exchange_never_yahoo_codes_for_suffixed_tickers() {
    assert_eq!(india_exchange_label("MOVINGPI.BO", Some("YHD")), "BSE");
    assert_eq!(india_exchange_label("RELIANCE.NS", Some("NSI")), "NSE");
}

#[test]
fn base_symbol_trims_and_uppercases() {
    assert_eq!(india_base_symbol("  reliance.ns ").unwrap(), "RELIANCE");
    assert_eq!(india_base_symbol("tcs.bo").unwrap(), "TCS");
    assert!(india_base_symbol("   ").is_err());
    assert!(india_base_symbol(".NS").is_err());
}

#[test]
fn resolve_error_reports_trimmed_text_when_base_is_empty() {
    let ctx = ctx_with_nse(&[]);
    match resolve_india_symbol(" .ns", &ctx) {
        Err(stocker_core::StockerError::InvalidSymbol(m)) => assert_eq!(m, ".ns"),
        other => panic!("unexpected {other:?}"),
    }
    match resolve_india_symbol("   ", &ctx) {
        Err(stocker_core::StockerError::InvalidSymbol(m)) => assert_eq!(m, "   "),
        other => panic!("unexpected {other:?}"),
    }
}

#[test]
fn resolve_lowercase_listed_symbol() {
    let ctx = ctx_with_nse(&["INFY"]);
    assert_eq!(resolve_india_symbol(" infy ", &ctx).unwrap(), "INFY.NS");
}

#[test]
fn bse_symbol_mapping() {
    assert_eq!(to_yahoo_bse_symbol(" 500325 "), "500325.BO");
    assert_eq!(to_yahoo_bse_symbol("abc.BO"), "ABC.BO");
    assert_eq!(to_yahoo_bse_symbol("abc.bo"), "ABC.BO.BO");
    assert_eq!(to_yahoo_bse_symbol("   "), "");
}

#[test]
fn display_ticker_strips_repeated_suffixes() {
    assert_eq!(india_display_ticker("X.NS.NS"), "X");
    assert_eq!(india_display_ticker("X.NS.BO"), "X.NS");
}

#[test]
fn exchange_label_long_names_and_default() {
    assert_eq!(india_exchange_label("FOO", Some("National Stock Exchange")), "NSE");
    assert_eq!(india_exchange_label("FOO", Some("Bombay")), "BSE");
    assert_eq!(india_exchange_label("FOO", Some("XYZ")), "NSE");
    assert_eq!(india_exchange_label("foo.bo", None), "BSE");
    assert_eq!(india_exchange_label("FOO", None), "NSE");
}
