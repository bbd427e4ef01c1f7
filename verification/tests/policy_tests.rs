use stocker_core::http_policy::assert_yahoo_finance_url;
use stocker_core::StockerError;

#[test]
fn allows_yahoo_endpoints() {
    for url in [
        "https://query1.finance.yahoo.com/v8/finance/chart/RELIANCE.NS",
        "https://query2.finance.yahoo.com/v10/finance/quoteSummary/RELIANCE.NS",
        "https://fc.yahoo.com",
        "https://finance.yahoo.com/quote/%5ENSEI",
    ] {
        assert_yahoo_finance_url(url).unwrap_or_else(|_| panic!("should allow {url}"));
    }
}

#[test]
fn rejects_nse_and_bse_hosts() {
    for url in [
        "https://www.nseindia.com/api/equity-stockIndices?index=NIFTY%20500",
        "https://nsearchives.nseindia.com/content/equities/EQUITY_L.csv",
        "https://api.bseindia.com/BseIndiaAPI/api/StockReachGraph/w",
    ] {
        assert!(assert_yahoo_finance_url(url).is_err(), "must reject {url}");
    }
}

#[test]
fn rejects_non_yahoo_hosts() {
    assert!(assert_yahoo_finance_url("https://example.com/data").is_err());
}

#[test]
fn blocked_host_message_wins_even_on_yahoo_looking_urls() {
    let url = "https://NSEINDIA.yahoo.com/x";
    match assert_yahoo_finance_url(url) {
        Err(StockerError::ForbiddenDataSource(m)) => assert_eq!(
            m,
            format!("blocked exchange/registrar host in URL (use local CSV + Yahoo only): {url}")
        ),
        other => panic!("unexpected {other:?}"),
    }
    match assert_yahoo_finance_url("https://example.com/data") {
        Err(StockerError::ForbiddenDataSource(m)) => assert_eq!(
            m,
            "only Yahoo Finance URLs are permitted for remote market data: https://example.com/data"
        ),
        other => panic!("unexpected {other:?}"),
    }
}

#[test]
fn yahoo_must_be_the_host_not_just_in_the_text() {
    for url in [
        "https://example.com/data?src=finance.yahoo.com",
        "https://yahoo.com.evil.example/x",
        "https://notyahoo.com/x",
        "https://example.com/yahoo.com",
        "https://finance.yahoo.com@example.com/x",
    ] {
        assert!(assert_yahoo_finance_url(url).is_err(), "must reject {url}");
    }
    for url in [
        "https://yahoo.com",
        "HTTPS://Query1.Finance.Yahoo.Com:443/v7?x=1",
        "https://user@finance.yahoo.com/x#frag",
        "query2.finance.yahoo.com/v10/finance/quoteSummary/TCS.NS",
    ] {
        assert!(assert_yahoo_finance_url(url).is_ok(), "should allow {url}");
    }
}
